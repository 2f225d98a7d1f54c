//! A spawned task that can be cancelled.

use crate::signals::Aborter;
use futures::future::Aborted;
use tokio::task::JoinHandle;
use vstd::prelude::*;

verus! {

/// `tokio::task::JoinHandle`, carried through as an opaque value.
#[verifier::external_type_specification]
#[verifier::external_body]
#[verifier::reject_recursive_types(T)]
pub struct ExJoinHandle<T>(tokio::task::JoinHandle<T>);

/// `tokio::task::JoinError`, what awaiting a `JoinHandle` may yield.
#[verifier::external_type_specification]
#[verifier::external_body]
pub struct ExJoinError(tokio::task::JoinError);

/// `futures::future::Aborted`, what an aborted task yields.
#[verifier::external_type_specification]
#[verifier::external_body]
pub struct ExAborted(futures::future::Aborted);

/// A spawned task together with the handle by which it is aborted.
#[verifier::reject_recursive_types(O)]
pub struct AbortableJoinHandle<O> {
    pub join_handle: JoinHandle<Result<O, Aborted>>,
    pub abort_handle: Aborter,
}

impl<O> AbortableJoinHandle<O> {
    /// Aborts the task.
    pub fn cancel(&mut self)
        ensures
            final(self).join_handle == old(self).join_handle,
            final(self).abort_handle == old(self).abort_handle.aborted(),
    {
        self.abort_handle.abort();
    }
}

impl<O> core::ops::Deref for AbortableJoinHandle<O> {
    type Target = JoinHandle<Result<O, Aborted>>;

    fn deref(&self) -> (join_handle: &JoinHandle<Result<O, Aborted>>)
        ensures
            *join_handle == self.join_handle,
    {
        &self.join_handle
    }
}

/// A task that is cancelled is told once more to abort, by its own handle.
pub proof fn law_cancelled_task_is_aborted<O>(task: &mut AbortableJoinHandle<O>, result: ())
    requires
        call_ensures(AbortableJoinHandle::<O>::cancel, (task,), result),
    ensures
        final(task).join_handle == old(task).join_handle,
        final(task).abort_handle.handle() == old(task).abort_handle.handle(),
        final(task).abort_handle.aborts() == old(task).abort_handle.aborts() + 1,
{
    old(task).abort_handle.lemma_aborted(old(task).abort_handle.handle());
}

} // verus!
