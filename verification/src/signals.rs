//! The handles through which the scheduler reaches a running job.
//!
//! What a handle does to the task at its other end shows nowhere in the outside handle itself. So
//! each handle here keeps, for contracts only, a record of its uses. The record is private and
//! takes no room in a running program; it changes only by a use, and a use needs the handle
//! mutably or by value.

use futures::future::AbortHandle;
use tokio::sync::{oneshot, watch};
use vstd::prelude::*;

verus! {

/// `tokio::sync::watch::Sender`, carried through as an opaque value.
#[verifier::external_type_specification]
#[verifier::external_body]
#[verifier::reject_recursive_types(T)]
pub struct ExWatchSender<T>(tokio::sync::watch::Sender<T>);

/// `tokio::sync::oneshot::Sender`, carried through as an opaque value.
#[verifier::external_type_specification]
#[verifier::external_body]
#[verifier::reject_recursive_types(T)]
pub struct ExOneshotSender<T>(tokio::sync::oneshot::Sender<T>);

/// `tokio::sync::oneshot::Receiver`, carried through as an opaque value.
#[verifier::external_type_specification]
#[verifier::external_body]
#[verifier::reject_recursive_types(T)]
pub struct ExOneshotReceiver<T>(tokio::sync::oneshot::Receiver<T>);

/// `tokio::sync::oneshot::error::RecvError`, what awaiting a receiver may yield.
#[verifier::external_type_specification]
#[verifier::external_body]
pub struct ExRecvError(tokio::sync::oneshot::error::RecvError);

/// `futures::future::AbortHandle`, carried through as an opaque value.
#[verifier::external_type_specification]
#[verifier::external_body]
pub struct ExAbortHandle(futures::future::AbortHandle);

/// The handle by which a task is aborted.
pub struct Aborter {
    handle: AbortHandle,
    aborts: Ghost<nat>,
}

impl Aborter {
    /// The outside handle.
    pub closed spec fn handle(self) -> AbortHandle {
        self.handle
    }

    /// How often the task was told to abort by this handle.
    pub closed spec fn aborts(self) -> nat {
        self.aborts@
    }

    /// A handle that was not used yet.
    pub closed spec fn fresh(handle: AbortHandle) -> Aborter {
        Aborter { handle, aborts: Ghost(0) }
    }

    /// The handle after its task was told once more to abort.
    pub closed spec fn aborted(self) -> Aborter {
        Aborter { handle: self.handle, aborts: Ghost(self.aborts@ + 1) }
    }

    /// What [`Aborter::fresh`] and [`Aborter::aborted`] make of a handle.
    pub proof fn lemma_aborted(self, handle: AbortHandle)
        ensures
            Aborter::fresh(handle).handle() == handle,
            Aborter::fresh(handle).aborts() == 0,
            self.aborted().handle() == self.handle(),
            self.aborted().aborts() == self.aborts() + 1,
    {
    }

    /// Takes an outside handle over.
    pub fn new(handle: AbortHandle) -> (aborter: Self)
        ensures
            aborter == Aborter::fresh(handle),
            aborter.handle() == handle,
            aborter.aborts() == 0,
    {
        Aborter { handle, aborts: Ghost(0) }
    }

    /// Calls `futures::future::AbortHandle::abort`, which tells the task of the handle to stop.
    /// The record counts the call.
    #[verifier::external_body]
    pub(crate) fn abort(&mut self)
        ensures
            *final(self) == old(self).aborted(),
    {
        self.handle.abort();
    }
}

/// The handle by which a job is asked to terminate.
pub struct TerminationHandle {
    sender: watch::Sender<Option<()>>,
    sends: Ghost<Seq<Option<()>>>,
}

impl TerminationHandle {
    /// The outside handle.
    pub closed spec fn sender(self) -> watch::Sender<Option<()>> {
        self.sender
    }

    /// The values of which a send was made by this handle, in order.
    pub closed spec fn sends(self) -> Seq<Option<()>> {
        self.sends@
    }

    /// A handle that was not used yet.
    pub closed spec fn fresh(sender: watch::Sender<Option<()>>) -> TerminationHandle {
        TerminationHandle { sender, sends: Ghost(Seq::empty()) }
    }

    /// The handle after a send of `value` was made by it.
    pub closed spec fn after_send(self, value: Option<()>) -> TerminationHandle {
        TerminationHandle { sender: self.sender, sends: Ghost(self.sends@.push(value)) }
    }

    /// What [`TerminationHandle::fresh`] and [`TerminationHandle::after_send`] make of a handle.
    pub proof fn lemma_after_send(self, sender: watch::Sender<Option<()>>, value: Option<()>)
        ensures
            TerminationHandle::fresh(sender).sender() == sender,
            TerminationHandle::fresh(sender).sends() == Seq::<Option<()>>::empty(),
            self.after_send(value).sender() == self.sender(),
            self.after_send(value).sends() == self.sends().push(value),
    {
    }

    /// Takes an outside handle over.
    pub fn new(sender: watch::Sender<Option<()>>) -> (handle: Self)
        ensures
            handle == TerminationHandle::fresh(sender),
            handle.sender() == sender,
            handle.sends() == Seq::<Option<()>>::empty(),
    {
        TerminationHandle { sender, sends: Ghost(Seq::empty()) }
    }

    /// Calls `tokio::sync::watch::Sender::send` with `value` and drops its result, an error where
    /// no receiver is left and the value is not taken. The record holds that the send was made.
    #[verifier::external_body]
    pub(crate) fn send(&mut self, value: Option<()>)
        ensures
            *final(self) == old(self).after_send(value),
    {
        self.sender.send(value).ok();
    }
}

/// The handle by which a job's readiness is announced, once.
pub struct Announcer {
    sender: oneshot::Sender<()>,
    receiver: Ghost<oneshot::Receiver<()>>,
}

/// The proof that an announcement was made.
pub struct Announcement {
    /// Whether the announcement was received.
    pub received: bool,
    receiver: Ghost<oneshot::Receiver<()>>,
}

impl Announcement {
    /// To whom the announcement was made.
    pub closed spec fn receiver(self) -> oneshot::Receiver<()> {
        self.receiver@
    }
}

impl Announcer {
    /// To whom the announcement is made.
    pub closed spec fn receiver(self) -> oneshot::Receiver<()> {
        self.receiver@
    }

    /// Calls `tokio::sync::oneshot::channel`, which makes a new channel and returns its two ends:
    /// what is announced by the one is received by the other.
    #[verifier::external_body]
    pub(crate) fn open() -> (ends: (Announcer, oneshot::Receiver<()>))
        ensures
            ends.0.receiver() == ends.1,
    {
        let (sender, receiver) = oneshot::channel();
        (Announcer { sender, receiver: Ghost(receiver) }, receiver)
    }

    /// Calls `tokio::sync::oneshot::Sender::send` with `()`, which uses the handle up, and says
    /// whether that succeeded. Which of the two it is rests on the receiver, which may be dropped
    /// before or while this runs: of that nothing is said.
    #[verifier::external_body]
    pub(crate) fn announce(self) -> (announcement: Announcement)
        ensures
            announcement.receiver() == self.receiver(),
    {
        Announcement { received: self.sender.send(()).is_ok(), receiver: self.receiver }
    }
}

} // verus!
