//! The states of a job.

use crate::signals::TerminationHandle;
use vstd::prelude::*;

verus! {

/// State in which a job currently resides
pub enum JobStatus {
    /// Job has started and is ready to fulfill contracts. Contains graceful termination handle
    /// if supported.
    Ready(Option<TerminationHandle>),
    /// Job has never started and is in the process of getting ready
    Startup,
    /// Job was restarted due to a missing dependency or after a crash and is getting ready
    Restarting,
    /// Job has exited with an error and is currently waiting before it retries
    CrashLoopBackOff,
    /// Job has exceeded its crash loop limit (clean shutdown or forced termination cause a
    /// removal of the job from the status list)
    Terminated,
    /// Job has exited cleanly
    Finished,
}

impl JobStatus {
    /// The word by which the status is shown.
    pub open spec fn label(self) -> Seq<char> {
        match self {
            JobStatus::Ready(_) => "Ready"@,
            JobStatus::Startup => "Startup"@,
            JobStatus::Restarting => "Restarting"@,
            JobStatus::CrashLoopBackOff => "CrashLoopBackOff"@,
            JobStatus::Terminated => "Terminated"@,
            JobStatus::Finished => "Finished"@,
        }
    }

    /// The job is ready and left a handle by which it can be asked to terminate.
    pub open spec fn gracefully_terminatable(self) -> bool {
        self matches JobStatus::Ready(Some(_))
    }

    /// The status after the job was asked to terminate, where it can be asked.
    pub open spec fn asked(self) -> JobStatus {
        match self {
            JobStatus::Ready(Some(handle)) => JobStatus::Ready(Some(handle.after_send(Some(())))),
            _ => self,
        }
    }

    /// What `==` means: the same state, whatever handle a ready job left. A finished job equals
    /// no other, nor itself.
    pub open spec fn same_state(self, other: JobStatus) -> bool {
        match self {
            JobStatus::Ready(_) => other is Ready,
            JobStatus::Startup => other is Startup,
            JobStatus::Restarting => other is Restarting,
            JobStatus::CrashLoopBackOff => other is CrashLoopBackOff,
            JobStatus::Terminated => other is Terminated,
            JobStatus::Finished => false,
        }
    }

    /// Shows the status as a word; the handle of a ready job is left out.
    pub fn to_string(&self) -> (text: String)
        ensures
            text@ == self.label(),
    {
        let text = match self {
            JobStatus::Ready(_) => "Ready",
            JobStatus::Startup => "Startup",
            JobStatus::Restarting => "Restarting",
            JobStatus::CrashLoopBackOff => "CrashLoopBackOff",
            JobStatus::Terminated => "Terminated",
            JobStatus::Finished => "Finished",
        };
        text.to_owned()
    }

    /// Whether the job can be asked to terminate.
    pub fn is_gracefully_terminatable(&self) -> (terminatable: bool)
        ensures
            terminatable == self.gracefully_terminatable(),
    {
        matches!(*self, JobStatus::Ready(Some(_)))
    }

    /// Asks the job to terminate, where it can be asked.
    pub fn ask_to_terminate(&mut self)
        ensures
            *final(self) == old(self).asked(),
    {
        match self {
            JobStatus::Ready(Some(handle)) => {
                handle.send(Some(()));
            },
            _ => {},
        }
    }
}

impl PartialEq for JobStatus {
    fn eq(&self, other: &Self) -> (equal: bool) {
        matches!(
            (self, other),
            (JobStatus::Startup, JobStatus::Startup)
                | (JobStatus::Restarting, JobStatus::Restarting)
                | (JobStatus::CrashLoopBackOff, JobStatus::CrashLoopBackOff)
                | (JobStatus::Terminated, JobStatus::Terminated)
                | (JobStatus::Ready(_), JobStatus::Ready(_))
        )
    }
}

impl vstd::std_specs::cmp::PartialEqSpecImpl for JobStatus {
    open spec fn obeys_eq_spec() -> bool {
        true
    }

    open spec fn eq_spec(&self, other: &Self) -> bool {
        self.same_state(*other)
    }
}

impl Eq for JobStatus {

}

/// `==` on statuses is symmetric and transitive, and every status but a finished one equals
/// itself.
pub proof fn law_status_equality(a: JobStatus, b: JobStatus, c: JobStatus)
    ensures
        a.same_state(b) == b.same_state(a),
        a.same_state(b) && b.same_state(c) ==> a.same_state(c),
        a.same_state(a) == !(a is Finished),
{
}

/// Two statuses are shown by the same word exactly where they are equal or both finished.
pub proof fn law_label_identifies_state(a: JobStatus, b: JobStatus)
    ensures
        a.label() == b.label() <==> (a.same_state(b) || (a is Finished && b is Finished)),
{
    reveal_strlit("Ready");
    reveal_strlit("Startup");
    reveal_strlit("Restarting");
    reveal_strlit("CrashLoopBackOff");
    reveal_strlit("Terminated");
    reveal_strlit("Finished");
    assert("Ready"@.len() == 5 && "Startup"@.len() == 7 && "Finished"@.len() == 8);
    assert("Restarting"@.len() == 10 && "Terminated"@.len() == 10);
    assert("CrashLoopBackOff"@.len() == 16);
    // The two words of one length differ in their first letter.
    assert("Restarting"@[0] != "Terminated"@[0]);
}

/// The word that each status is shown by, whatever handle a ready job left.
pub proof fn law_statuses_are_shown_by_their_words(status: &JobStatus, text: String)
    requires
        call_ensures(JobStatus::to_string, (status,), text),
    ensures
        *status matches JobStatus::Ready(_) ==> text@ == "Ready"@,
        status is Startup ==> text@ == "Startup"@,
        status is Restarting ==> text@ == "Restarting"@,
        status is CrashLoopBackOff ==> text@ == "CrashLoopBackOff"@,
        status is Terminated ==> text@ == "Terminated"@,
        status is Finished ==> text@ == "Finished"@,
{
}

/// Two statuses are found equal where they are of one kind, except that a finished job is found
/// equal to none; and the kinds are told apart by their words.
pub proof fn law_equal_statuses_are_of_one_kind(
    a: &JobStatus,
    b: &JobStatus,
    equal: bool,
    texts: (String, String),
)
    requires
        call_ensures(JobStatus::eq, (a, b), equal),
        call_ensures(JobStatus::to_string, (a,), texts.0),
        call_ensures(JobStatus::to_string, (b,), texts.1),
    ensures
        equal <==> {
            ||| a is Ready && b is Ready
            ||| a is Startup && b is Startup
            ||| a is Restarting && b is Restarting
            ||| a is CrashLoopBackOff && b is CrashLoopBackOff
            ||| a is Terminated && b is Terminated
        },
        texts.0@ == texts.1@ <==> equal || (a is Finished && b is Finished),
{
    law_label_identifies_state(*a, *b);
}

/// A job can be asked to terminate exactly where it is ready and left a handle.
pub proof fn law_who_can_be_asked(status: &JobStatus, terminatable: bool)
    requires
        call_ensures(JobStatus::is_gracefully_terminatable, (status,), terminatable),
    ensures
        terminatable <==> (*status matches JobStatus::Ready(Some(_))),
{
}

/// A job that can be asked is sent one `Some(())` by its own handle and stays ready; the status of
/// any other stays what it is.
pub proof fn law_asking_sends_once(status: &mut JobStatus, result: ())
    requires
        call_ensures(JobStatus::ask_to_terminate, (status,), result),
    ensures
        match *old(status) {
            JobStatus::Ready(Some(handle)) => {
                &&& *final(status) matches JobStatus::Ready(Some(asked))
                &&& asked.sender() == handle.sender()
                &&& asked.sends() == handle.sends().push(Some(()))
            },
            unasked => *final(status) == unasked,
        },
{
    if let JobStatus::Ready(Some(handle)) = *old(status) {
        handle.lemma_after_send(handle.sender(), Some(()));
    }
}

} // verus!
