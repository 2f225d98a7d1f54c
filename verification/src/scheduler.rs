//! The scheduler's books: which jobs there are, in which state, and how to reach them.

use crate::job::Job;
use crate::lifecycle::{
    JobLifecycle, LifecycleAction, LifecycleEvent, LifecycleExit, LifecyclePhase,
};
use crate::registry::Registry;
use crate::signals::{Aborter, Announcement, Announcer, TerminationHandle};
use crate::status::JobStatus;
use crate::{lifecycle, registry};
use futures::future::AbortHandle;
use tokio::sync::{oneshot, watch};
use vstd::prelude::*;

verus! {

/// How often the remaining jobs are looked at before they are killed.
pub const TERMINATION_ROUNDS: u32 = 60000;

/// Milliseconds between two rounds of [`JobScheduler::terminate_jobs`].
pub const TERMINATION_PAUSE_MILLIS: u64 = 10;

/// Milliseconds after each round of [`JobScheduler::wait_for_ready`].
pub const READINESS_PAUSE_MILLIS: u64 = 100;

/// News of a resource on which a job depends.
#[derive(Clone, Copy, Debug, PartialEq, Eq, Structural)]
pub enum ResourceStatus {
    /// The resource is gone.
    Dead,
}

/// What a round of [`JobScheduler::terminate_jobs`] came to.
#[derive(Debug)]
pub enum TerminationRound {
    /// Some jobs may still exit by themselves: pause for that many milliseconds, then start the
    /// next round.
    Wait(u64),
    /// All is done. The names are those of the jobs that were killed in the end.
    Complete(Vec<String>),
}

/// What a round of [`JobScheduler::wait_for_ready`] came to.
#[derive(Clone, Copy, Debug, PartialEq, Eq, Structural)]
pub enum ReadinessRound {
    /// The jobs were looked at: pause for that many milliseconds, then start the next round and
    /// tell it whether all of them were found ready.
    Pause(u64, bool),
    /// The waiting is over.
    Complete,
}

/// What came of a job that was spawned. What was filed under its name before is handed back.
pub struct Spawned {
    /// The name under which the job is filed.
    pub job_name: String,
    /// Receives the announcement when the job becomes ready for the first time.
    pub readiness: oneshot::Receiver<()>,
    pub replaced_announcer: Option<Announcer>,
    pub replaced_aborter: Option<Aborter>,
}

/// What came of a step of a lifecycle.
pub struct Progress {
    /// What is to be done next.
    pub action: LifecycleAction,
    /// The status that the job had before, where the step changed it.
    pub replaced: Option<JobStatus>,
}

/// What came of a report of readiness.
pub struct ReadinessReport {
    /// The announcement, where one was waited for.
    pub announcement: Option<Announcement>,
    /// The status that the job had before, where the report changed it.
    pub replaced: Option<JobStatus>,
}

/// What is no longer filed of a job that was released.
pub struct Released {
    pub aborter: Option<Aborter>,
    pub status: Option<JobStatus>,
}

/// Job and task lifecycle handler
///
/// A handle or status that leaves the books is handed back to the caller, as it was.
pub struct JobScheduler {
    /// The status list.
    pub status: Registry<JobStatus>,
    /// The handles by which a job's lifecycle is aborted.
    pub termination_handles: Registry<Aborter>,
    /// Where the first readiness of a job is announced.
    pub readiness_oneshots: Registry<Announcer>,
}

/// The status list after every job that can be asked to terminate was asked.
pub open spec fn asked_entries(listed: Seq<(Seq<char>, JobStatus)>) -> Seq<
    (Seq<char>, JobStatus),
> {
    Seq::new(listed.len(), |i: int| (listed[i].0, listed[i].1.asked()))
}

/// A job is aborted when all jobs are terminated: it is listed and cannot be asked.
pub open spec fn is_abort_due(status: Map<Seq<char>, JobStatus>, job_name: Seq<char>) -> bool {
    status.contains_key(job_name) && !status[job_name].gracefully_terminatable()
}

/// The handles after every job that cannot be asked to terminate was aborted.
pub open spec fn aborted_entries(
    handles: Seq<(Seq<char>, Aborter)>,
    status: Map<Seq<char>, JobStatus>,
) -> Seq<(Seq<char>, Aborter)> {
    Seq::new(
        handles.len(),
        |i: int|
            if is_abort_due(status, handles[i].0) {
                (handles[i].0, handles[i].1.aborted())
            } else {
                handles[i]
            },
    )
}

/// The handles after every job was aborted.
pub open spec fn killed_entries(handles: Seq<(Seq<char>, Aborter)>) -> Seq<(Seq<char>, Aborter)> {
    Seq::new(handles.len(), |i: int| (handles[i].0, handles[i].1.aborted()))
}

/// A job that has a handle is ready and can be asked to terminate.
pub open spec fn graceful_exit_expected(
    status: Map<Seq<char>, JobStatus>,
    handles: Map<Seq<char>, Aborter>,
) -> bool {
    exists|job_name: Seq<char>|
        #![trigger status.contains_key(job_name)]
        handles.contains_key(job_name) && status.contains_key(job_name)
            && status[job_name].gracefully_terminatable()
}

/// What a round of the waiting for readiness comes to: `found_ready` is what the round before it
/// found, and `all_ready` is what there is to be found.
pub open spec fn readiness_round(found_ready: bool, all_ready: bool) -> ReadinessRound {
    if found_ready {
        ReadinessRound::Complete
    } else {
        ReadinessRound::Pause(READINESS_PAUSE_MILLIS, all_ready)
    }
}

/// A round of the termination calls for a pause: it is not the last one, and some job may still
/// exit by itself.
pub open spec fn calls_for_pause(pauses: nat, graceful: bool) -> bool {
    pauses < TERMINATION_ROUNDS && graceful
}

/// To whom a job's readiness is announced, where it is waited for.
pub open spec fn announced_to(
    waiting: Map<Seq<char>, Announcer>,
    job_name: Seq<char>,
) -> Option<oneshot::Receiver<()>> {
    if waiting.contains_key(job_name) {
        Some(waiting[job_name].receiver())
    } else {
        None
    }
}

/// To whom an announcement was made, where one was.
pub open spec fn receiver_of(announcement: Option<Announcement>) -> Option<oneshot::Receiver<()>> {
    match announcement {
        Some(made) => Some(made.receiver()),
        None => None,
    }
}

/// The status list when the end of a job's lifecycle is recorded.
pub open spec fn status_at_exit(
    status: Map<Seq<char>, JobStatus>,
    job_name: Seq<char>,
    exit: LifecycleExit,
) -> Map<Seq<char>, JobStatus> {
    if exit is Aborted {
        status.insert(job_name, JobStatus::Terminated)
    } else {
        status
    }
}

/// The status list after a job was released.
pub open spec fn status_after_release(
    status: Map<Seq<char>, JobStatus>,
    job_name: Seq<char>,
    exit: LifecycleExit,
) -> Map<Seq<char>, JobStatus> {
    if exit is RetriesExhausted {
        status
    } else {
        status.remove(job_name)
    }
}

/// Asking and aborting changes neither which jobs have a handle nor which can be asked.
proof fn lemma_graceful_exit_still_expected(
    listed: Seq<(Seq<char>, JobStatus)>,
    handles: Seq<(Seq<char>, Aborter)>,
)
    requires
        registry::distinct_keys(listed),
        registry::distinct_keys(handles),
    ensures
        ({
            let status = registry::as_map(listed);
            graceful_exit_expected(
                registry::as_map(asked_entries(listed)),
                registry::as_map(aborted_entries(handles, status)),
            ) == graceful_exit_expected(status, registry::as_map(handles))
        }),
{
    let status = registry::as_map(listed);
    let asked = registry::as_map(asked_entries(listed));
    let before = registry::as_map(handles);
    let after = registry::as_map(aborted_entries(handles, status));
    registry::lemma_same_keys(listed, asked_entries(listed));
    registry::lemma_same_keys(handles, aborted_entries(handles, status));
    if graceful_exit_expected(status, before) {
        let job_name = choose|job_name: Seq<char>|
            #![trigger status.contains_key(job_name)]
            before.contains_key(job_name) && status.contains_key(job_name)
                && status[job_name].gracefully_terminatable();
        assert(after.contains_key(job_name) && asked.contains_key(job_name));
    }
    if graceful_exit_expected(asked, after) {
        let job_name = choose|job_name: Seq<char>|
            #![trigger asked.contains_key(job_name)]
            after.contains_key(job_name) && asked.contains_key(job_name)
                && asked[job_name].gracefully_terminatable();
        assert(before.contains_key(job_name) && status.contains_key(job_name));
    }
}

impl JobScheduler {
    /// Every registered job is listed, and every listed job is ready.
    pub open spec fn all_ready(&self) -> bool {
        &&& forall|job_name: Seq<char>| #[trigger]
            self.status@.contains_key(job_name) ==> self.status@[job_name] is Ready
        &&& forall|job_name: Seq<char>| #[trigger]
            self.termination_handles@.contains_key(job_name) ==> self.status@.contains_key(job_name)
    }

    /// The two schedulers differ at most in their status lists.
    pub open spec fn agrees_but_for_status(&self, other: &JobScheduler) -> bool {
        &&& self.termination_handles == other.termination_handles
        &&& self.readiness_oneshots == other.readiness_oneshots
    }

    /// Lists `job_name` with `status` and hands back the status that it had before.
    pub fn change_status(&mut self, job_name: &String, status: JobStatus) -> (replaced: Option<
        JobStatus,
    >)
        ensures
            final(self).status@ == old(self).status@.insert(job_name@, status),
            replaced == registry::lookup(old(self).status@, job_name@),
            final(self).agrees_but_for_status(old(self)),
    {
        self.status.insert(job_name.clone(), status)
    }

    /// Takes a job's lifecycle up: its name is listed as starting up, and an instance of it is
    /// to be run.
    pub fn start_job_lifecycle<J: Job>(&mut self, job: &J) -> (started: (JobLifecycle, Progress))
        ensures
            exists|job_name: String| #[trigger]
                call_ensures(J::name, (job,), job_name) && started.0.job_name@ == job_name@,
            started.0.phase == LifecyclePhase::Running,
            started.1.action is RunInstance,
            started.1.replaced == registry::lookup(old(self).status@, started.0.job_name@),
            final(self).status@ == old(self).status@.insert(
                started.0.job_name@,
                JobStatus::Startup,
            ),
            final(self).agrees_but_for_status(old(self)),
    {
        let job_name = job.name();
        assert(call_ensures(J::name, (job,), job_name));
        let replaced = self.change_status(&job_name, JobStatus::Startup);
        let lifecycle = JobLifecycle { job_name, phase: LifecyclePhase::Running };
        (lifecycle, Progress { action: LifecycleAction::RunInstance, replaced })
    }

    /// Takes a job's lifecycle one step further.
    pub fn manage_job_lifecycle(
        &mut self,
        lifecycle: &mut JobLifecycle,
        event: LifecycleEvent,
    ) -> (progress: Progress)
        requires
            old(lifecycle).phase.expects(event),
        ensures
            final(lifecycle).job_name == old(lifecycle).job_name,
            ({
                let step = lifecycle::lifecycle_step(old(lifecycle).phase, event);
                &&& final(lifecycle).phase == step.phase
                &&& progress.action == step.action
                &&& progress.replaced == if step.update is Keep {
                    None
                } else {
                    registry::lookup(old(self).status@, old(lifecycle).job_name@)
                }
                &&& final(self).status@ == lifecycle::updated(
                    old(self).status@,
                    old(lifecycle).job_name@,
                    step.update,
                )
            }),
            final(self).agrees_but_for_status(old(self)),
    {
        match event {
            LifecycleEvent::Completed => {
                let replaced = self.change_status(&lifecycle.job_name, JobStatus::Finished);
                lifecycle.phase = LifecyclePhase::Retiring;
                Progress { action: LifecycleAction::Proceed, replaced }
            },
            LifecycleEvent::Failed => {
                let replaced = self.change_status(&lifecycle.job_name, JobStatus::CrashLoopBackOff);
                lifecycle.phase = LifecyclePhase::Crashed;
                Progress { action: LifecycleAction::AskBackoff, replaced }
            },
            LifecycleEvent::ResourceLost => {
                let replaced = self.change_status(&lifecycle.job_name, JobStatus::Restarting);
                Progress { action: LifecycleAction::RunInstance, replaced }
            },
            LifecycleEvent::Backoff(Some(delay)) => {
                lifecycle.phase = LifecyclePhase::BackingOff;
                Progress { action: LifecycleAction::Sleep(delay), replaced: None }
            },
            LifecycleEvent::Backoff(None) => {
                let exit = LifecycleExit::RetriesExhausted;
                let replaced = self.change_status(&lifecycle.job_name, JobStatus::Terminated);
                lifecycle.phase = LifecyclePhase::Ended(exit);
                Progress { action: LifecycleAction::Exit(exit), replaced }
            },
            LifecycleEvent::Proceed => {
                if lifecycle.phase == LifecyclePhase::Retiring {
                    let exit = LifecycleExit::Finished;
                    let replaced = self.status.remove(&lifecycle.job_name);
                    lifecycle.phase = LifecyclePhase::Ended(exit);
                    Progress { action: LifecycleAction::Exit(exit), replaced }
                } else {
                    let replaced = self.change_status(&lifecycle.job_name, JobStatus::Restarting);
                    lifecycle.phase = LifecyclePhase::Running;
                    Progress { action: LifecycleAction::RunInstance, replaced }
                }
            },
        }
    }

    /// The handle by which an instance of `job` can be asked to terminate, where the job honors
    /// that; otherwise `termination_tx` is handed back.
    pub fn termination_handle<J: Job>(
        job: &J,
        termination_tx: watch::Sender<Option<()>>,
    ) -> (handle: Result<TerminationHandle, watch::Sender<Option<()>>>)
        ensures
            exists|supported: bool|
                {
                    &&& #[trigger] call_ensures(
                        J::supports_graceful_termination,
                        (job,),
                        supported,
                    )
                    &&& handle == (if supported {
                        Ok(TerminationHandle::fresh(termination_tx))
                    } else {
                        Err(termination_tx)
                    })
                },
    {
        let supported = job.supports_graceful_termination();
        assert(call_ensures(J::supports_graceful_termination, (job,), supported));
        if supported {
            Ok(TerminationHandle::new(termination_tx))
        } else {
            Err(termination_tx)
        }
    }

    /// Takes in what a job's instance says of its readiness: `reported` is false where the
    /// instance ended without a word.
    ///
    /// A job that reports is listed as ready, with its termination handle, if it has one. Where
    /// its readiness is still waited for, it is announced.
    pub fn report_readiness(
        &mut self,
        job_name: &String,
        reported: bool,
        termination_handle: &mut Option<TerminationHandle>,
    ) -> (report: ReadinessReport)
        ensures
            !reported ==> {
                &&& *final(self) == *old(self)
                &&& *final(termination_handle) == *old(termination_handle)
                &&& report.announcement is None
                &&& report.replaced is None
            },
            reported ==> {
                &&& final(self).status@ == old(self).status@.insert(
                    job_name@,
                    JobStatus::Ready(*old(termination_handle)),
                )
                &&& *final(termination_handle) == None::<TerminationHandle>
                &&& final(self).readiness_oneshots@ == old(self).readiness_oneshots@.remove(
                    job_name@,
                )
                &&& receiver_of(report.announcement) == announced_to(
                    old(self).readiness_oneshots@,
                    job_name@,
                )
                &&& report.replaced == registry::lookup(old(self).status@, job_name@)
                &&& final(self).termination_handles == old(self).termination_handles
            },
    {
        if reported {
            let replaced = self.change_status(
                job_name,
                JobStatus::Ready(termination_handle.take()),
            );
            let announcement = match self.readiness_oneshots.remove(job_name) {
                Some(announcer) => Some(announcer.announce()),
                None => None,
            };
            ReadinessReport { announcement, replaced }
        } else {
            ReadinessReport { announcement: None, replaced: None }
        }
    }

    /// Takes in news of a resource on which the task behind `aborter` depends: the task is
    /// aborted where the resource is dead. `news` is none where no news can come any more.
    pub fn resource_changed(news: Option<ResourceStatus>, aborter: &mut Aborter)
        ensures
            *final(aborter) == match news {
                Some(ResourceStatus::Dead) => old(aborter).aborted(),
                None => *old(aborter),
            },
    {
        match news {
            Some(ResourceStatus::Dead) => {
                aborter.abort();
            },
            None => {},
        }
    }

    /// Assigns a new job to the scheduler.
    ///
    /// The job's lifecycle is the task behind `termination_handle`.
    pub fn spawn_job<J: Job>(&mut self, job: &J, termination_handle: AbortHandle) -> (spawned:
        Spawned)
        ensures
            exists|job_name: String| #[trigger]
                call_ensures(J::name, (job,), job_name) && spawned.job_name@ == job_name@,
            ({
                let job_name = spawned.job_name@;
                let announcer = final(self).readiness_oneshots@[job_name];
                &&& final(self).readiness_oneshots@ == old(self).readiness_oneshots@.insert(
                    job_name,
                    announcer,
                )
                &&& announcer.receiver() == spawned.readiness
                &&& final(self).termination_handles@ == old(self).termination_handles@.insert(
                    job_name,
                    Aborter::fresh(termination_handle),
                )
                &&& spawned.replaced_announcer == registry::lookup(
                    old(self).readiness_oneshots@,
                    job_name,
                )
                &&& spawned.replaced_aborter == registry::lookup(
                    old(self).termination_handles@,
                    job_name,
                )
            }),
            final(self).status == old(self).status,
    {
        let job_name = job.name();
        assert(call_ensures(J::name, (job,), job_name));
        let (announcer, readiness) = Announcer::open();
        let replaced_announcer = self.readiness_oneshots.insert(job_name.clone(), announcer);
        let aborter = Aborter::new(termination_handle);
        let replaced_aborter = self.termination_handles.insert(job_name.clone(), aborter);
        Spawned { job_name, readiness, replaced_announcer, replaced_aborter }
    }

    /// First part of the end of a job's lifecycle: where it was aborted, the job is listed as
    /// terminated, and the status that it had before is handed back.
    pub fn record_exit(&mut self, job_name: &String, exit: LifecycleExit) -> (replaced: Option<
        JobStatus,
    >)
        ensures
            final(self).status@ == status_at_exit(old(self).status@, job_name@, exit),
            replaced == if exit is Aborted {
                registry::lookup(old(self).status@, job_name@)
            } else {
                None
            },
            final(self).agrees_but_for_status(old(self)),
    {
        if exit == LifecycleExit::Aborted {
            self.change_status(job_name, JobStatus::Terminated)
        } else {
            None
        }
    }

    /// Second part of the end of a job's lifecycle: the job can no longer be aborted, and it is
    /// taken off the status list, unless it has exceeded its crash loop limit.
    pub fn release_job(&mut self, job_name: &String, exit: LifecycleExit) -> (released: Released)
        ensures
            final(self).termination_handles@ == old(self).termination_handles@.remove(job_name@),
            released.aborter == registry::lookup(old(self).termination_handles@, job_name@),
            final(self).status@ == status_after_release(old(self).status@, job_name@, exit),
            released.status == if exit is RetriesExhausted {
                None
            } else {
                registry::lookup(old(self).status@, job_name@)
            },
            final(self).readiness_oneshots == old(self).readiness_oneshots,
    {
        let aborter = self.termination_handles.remove(job_name);
        let status = if exit != LifecycleExit::RetriesExhausted {
            self.status.remove(job_name)
        } else {
            None
        };
        Released { aborter, status }
    }

    /// Sends the termination signal to the jobs that support graceful shutdown and terminates
    /// the ones that don't (or that aren't running).
    pub fn signal_termination(&mut self)
        ensures
            final(self).status.entries() == asked_entries(old(self).status.entries()),
            final(self).termination_handles.entries() == aborted_entries(
                old(self).termination_handles.entries(),
                old(self).status@,
            ),
            forall|job_name: Seq<char>| #[trigger]
                final(self).status@.contains_key(job_name) <==> old(self).status@.contains_key(
                    job_name,
                ),
            forall|job_name: Seq<char>| #[trigger]
                old(self).status@.contains_key(job_name) ==> final(self).status@[job_name]
                    == match old(self).status@[job_name] {
                    JobStatus::Ready(Some(handle)) => JobStatus::Ready(
                        Some(handle.after_send(Some(()))),
                    ),
                    other => other,
                },
            forall|job_name: Seq<char>| #[trigger]
                final(self).termination_handles@.contains_key(job_name)
                    <==> old(self).termination_handles@.contains_key(job_name),
            forall|job_name: Seq<char>| #[trigger]
                old(self).termination_handles@.contains_key(job_name) ==> {
                    let before = old(self).termination_handles@[job_name];
                    final(self).termination_handles@[job_name] == if old(self).status@.contains_key(
                        job_name,
                    ) && !(old(self).status@[job_name] matches JobStatus::Ready(Some(_))) {
                        before.aborted()
                    } else {
                        before
                    }
                },
            final(self).readiness_oneshots == old(self).readiness_oneshots,
    {
        let ghost listed = self.status.entries();
        let ghost handles = self.termination_handles.entries();
        proof {
            use_type_invariant(&self.status);
            self.status.lemma_names_are_distinct();
            use_type_invariant(&self.termination_handles);
            self.termination_handles.lemma_names_are_distinct();
        }
        let mut index: usize = 0;
        while index < self.status.len()
            invariant
                listed == old(self).status.entries(),
                self.status.entries().len() == listed.len(),
                index <= listed.len(),
                forall|i: int|
                    0 <= i < listed.len() ==> #[trigger] self.status.entries()[i] == if i < index {
                        (listed[i].0, listed[i].1.asked())
                    } else {
                        listed[i]
                    },
                self.agrees_but_for_status(old(self)),
            decreases listed.len() - index,
        {
            self.status.value_mut(index).ask_to_terminate();
            index = index + 1;
        }
        assert(self.status.entries() =~= asked_entries(listed));
        proof {
            registry::lemma_same_keys(listed, asked_entries(listed));
        }
        let mut index: usize = 0;
        while index < self.termination_handles.len()
            invariant
                listed == old(self).status.entries(),
                registry::distinct_keys(listed),
                self.status.entries() == asked_entries(listed),
                forall|job_name: Seq<char>| #[trigger]
                    self.status@.contains_key(job_name) <==> old(self).status@.contains_key(
                        job_name,
                    ),
                forall|job_name: Seq<char>| #[trigger]
                    old(self).status@.contains_key(job_name) ==> self.status@[job_name]
                        == old(self).status@[job_name].asked(),
                handles == old(self).termination_handles.entries(),
                self.termination_handles.entries().len() == handles.len(),
                index <= handles.len(),
                forall|i: int|
                    0 <= i < handles.len() ==> #[trigger] self.termination_handles.entries()[i]
                        == if i < index {
                        aborted_entries(handles, old(self).status@)[i]
                    } else {
                        handles[i]
                    },
                self.readiness_oneshots == old(self).readiness_oneshots,
            decreases handles.len() - index,
        {
            let forced = match self.status.get(self.termination_handles.name_at(index)) {
                Some(job_status) => !job_status.is_gracefully_terminatable(),
                None => false,
            };
            assert(forced == is_abort_due(old(self).status@, handles[index as int].0));
            if forced {
                self.termination_handles.value_mut(index).abort();
            }
            index = index + 1;
        }
        assert(self.termination_handles.entries() =~= aborted_entries(handles, old(self).status@));
        proof {
            registry::lemma_same_keys(handles, aborted_entries(handles, old(self).status@));
        }
    }

    /// Whether some job that was not released yet may still exit gracefully. Jobs that are not
    /// ready do not count: one that crashes while it shuts down would hold up the termination.
    pub fn awaits_graceful_exit(&self) -> (waiting: bool)
        ensures
            waiting == graceful_exit_expected(self.status@, self.termination_handles@),
    {
        proof {
            use_type_invariant(&self.termination_handles);
            self.termination_handles.lemma_names_are_distinct();
        }
        let mut index: usize = 0;
        while index < self.termination_handles.len()
            invariant
                index <= self.termination_handles.entries().len(),
                self.termination_handles.names_are_distinct(),
                forall|i: int|
                    #![trigger self.termination_handles.entries()[i]]
                    0 <= i < index ==> {
                        let job_name = self.termination_handles.entries()[i].0;
                        self.status@.contains_key(job_name)
                            ==> !self.status@[job_name].gracefully_terminatable()
                    },
            decreases self.termination_handles.entries().len() - index,
        {
            let job_name = self.termination_handles.name_at(index);
            match self.status.get(job_name) {
                Some(job_status) => {
                    if job_status.is_gracefully_terminatable() {
                        proof {
                            registry::lemma_place_is_unique(
                                self.termination_handles.entries(),
                                index as int,
                            );
                        }
                        return true;
                    }
                },
                None => {},
            }
            index = index + 1;
        }
        false
    }

    /// Aborts the lifecycles of all jobs that were not released yet and returns the jobs' names.
    pub fn kill_remaining(&mut self) -> (killed: Vec<String>)
        ensures
            final(self).termination_handles.entries() == killed_entries(
                old(self).termination_handles.entries(),
            ),
            killed@.len() == old(self).termination_handles.entries().len(),
            forall|i: int|
                0 <= i < killed@.len() ==> (#[trigger] killed@[i])@
                    == old(self).termination_handles.entries()[i].0,
            forall|i: int, j: int|
                0 <= i < j < killed@.len() ==> (#[trigger] killed@[i])@ != (#[trigger] killed@[j])@,
            forall|i: int|
                0 <= i < killed@.len() ==> old(self).termination_handles@.contains_key(
                    (#[trigger] killed@[i])@,
                ),
            forall|job_name: Seq<char>| #[trigger]
                old(self).termination_handles@.contains_key(job_name) ==> exists|i: int|
                    0 <= i < killed@.len() && (#[trigger] killed@[i])@ == job_name,
            forall|job_name: Seq<char>| #[trigger]
                final(self).termination_handles@.contains_key(job_name)
                    <==> old(self).termination_handles@.contains_key(job_name),
            forall|job_name: Seq<char>| #[trigger]
                old(self).termination_handles@.contains_key(job_name)
                    ==> final(self).termination_handles@[job_name]
                    == old(self).termination_handles@[job_name].aborted(),
            final(self).status == old(self).status,
            final(self).readiness_oneshots == old(self).readiness_oneshots,
    {
        let ghost handles = self.termination_handles.entries();
        proof {
            use_type_invariant(&self.termination_handles);
            self.termination_handles.lemma_names_are_distinct();
        }
        let mut killed: Vec<String> = Vec::new();
        let mut index: usize = 0;
        while index < self.termination_handles.len()
            invariant
                handles == old(self).termination_handles.entries(),
                self.termination_handles.entries().len() == handles.len(),
                index <= handles.len(),
                forall|i: int|
                    0 <= i < handles.len() ==> #[trigger] self.termination_handles.entries()[i]
                        == if i < index {
                        (handles[i].0, handles[i].1.aborted())
                    } else {
                        handles[i]
                    },
                killed@.len() == index,
                forall|i: int| 0 <= i < index ==> (#[trigger] killed@[i])@ == handles[i].0,
                self.status == old(self).status,
                self.readiness_oneshots == old(self).readiness_oneshots,
            decreases handles.len() - index,
        {
            killed.push(self.termination_handles.name_at(index).clone());
            self.termination_handles.value_mut(index).abort();
            index = index + 1;
        }
        assert(self.termination_handles.entries() =~= killed_entries(handles));
        proof {
            registry::lemma_same_keys(handles, killed_entries(handles));
            assert forall|i: int|
                0 <= i < killed@.len() implies old(self).termination_handles@.contains_key(
                (#[trigger] killed@[i])@,
            ) by {
                registry::lemma_place_is_unique(handles, i);
            }
            assert forall|job_name: Seq<char>| #[trigger]
                old(self).termination_handles@.contains_key(job_name) implies exists|i: int|
                0 <= i < killed@.len() && (#[trigger] killed@[i])@ == job_name by {
                let place = registry::place_of(handles, job_name);
                assert(killed@[place]@ == job_name);
            }
            assert forall|i: int, j: int| 0 <= i < j < killed@.len() implies (
            #[trigger] killed@[i])@ != (#[trigger] killed@[j])@ by {
                assert(handles[i].0 != handles[j].0);
            }
        }
        killed
    }

    /// Gracefully terminates all managed jobs that support it and kills all the others.
    ///
    /// This is one round of it, after `pauses` pauses. The first round gives the signals. A round
    /// calls for a pause of [`TERMINATION_PAUSE_MILLIS`] as long as some job may still exit
    /// gracefully, and no more than [`TERMINATION_ROUNDS`] times; otherwise it kills the
    /// remaining jobs.
    pub fn terminate_jobs(&mut self, pauses: u32) -> (round: TerminationRound)
        ensures
            round is Wait <==> calls_for_pause(
                pauses as nat,
                graceful_exit_expected(old(self).status@, old(self).termination_handles@),
            ),
            final(self).status.entries() == if pauses == 0 {
                asked_entries(old(self).status.entries())
            } else {
                old(self).status.entries()
            },
            ({
                let handles = old(self).termination_handles.entries();
                let signalled = if pauses == 0 {
                    aborted_entries(handles, old(self).status@)
                } else {
                    handles
                };
                match round {
                    TerminationRound::Wait(millis) => {
                        &&& millis == TERMINATION_PAUSE_MILLIS
                        &&& final(self).termination_handles.entries() == signalled
                    },
                    TerminationRound::Complete(killed) => {
                        &&& final(self).termination_handles.entries() == killed_entries(signalled)
                        &&& killed@.len() == handles.len()
                        &&& forall|i: int|
                            0 <= i < handles.len() ==> (#[trigger] killed@[i])@ == handles[i].0
                        &&& forall|i: int, j: int|
                            0 <= i < j < killed@.len() ==> (#[trigger] killed@[i])@ != (
                            #[trigger] killed@[j])@
                        &&& forall|i: int|
                            0 <= i < killed@.len() ==> old(self).termination_handles@.contains_key(
                                (#[trigger] killed@[i])@,
                            )
                        &&& forall|job_name: Seq<char>| #[trigger]
                            old(self).termination_handles@.contains_key(job_name) ==> exists|i: int|
                                0 <= i < killed@.len() && (#[trigger] killed@[i])@ == job_name
                    },
                }
            }),
            forall|job_name: Seq<char>| #[trigger]
                final(self).status@.contains_key(job_name) <==> old(self).status@.contains_key(
                    job_name,
                ),
            forall|job_name: Seq<char>| #[trigger]
                old(self).status@.contains_key(job_name) ==> final(self).status@[job_name]
                    == match old(self).status@[job_name] {
                    JobStatus::Ready(Some(handle)) if pauses == 0 => JobStatus::Ready(
                        Some(handle.after_send(Some(()))),
                    ),
                    other => other,
                },
            forall|job_name: Seq<char>| #[trigger]
                final(self).termination_handles@.contains_key(job_name)
                    <==> old(self).termination_handles@.contains_key(job_name),
            forall|job_name: Seq<char>| #[trigger]
                old(self).termination_handles@.contains_key(job_name) ==> {
                    let before = old(self).termination_handles@[job_name];
                    let signalled = if pauses == 0 && old(self).status@.contains_key(job_name)
                        && !(old(self).status@[job_name] matches JobStatus::Ready(Some(_))) {
                        before.aborted()
                    } else {
                        before
                    };
                    final(self).termination_handles@[job_name] == if round is Wait {
                        signalled
                    } else {
                        signalled.aborted()
                    }
                },
            final(self).readiness_oneshots == old(self).readiness_oneshots,
    {
        proof {
            use_type_invariant(&self.status);
            self.status.lemma_names_are_distinct();
            use_type_invariant(&self.termination_handles);
            self.termination_handles.lemma_names_are_distinct();
            lemma_graceful_exit_still_expected(
                self.status.entries(),
                self.termination_handles.entries(),
            );
        }
        if pauses == 0 {
            self.signal_termination();
        }
        assert forall|job_name: Seq<char>| #[trigger]
            old(self).termination_handles@.contains_key(
                job_name,
            ) implies self.termination_handles@.contains_key(job_name) by {}
        if pauses < TERMINATION_ROUNDS && self.awaits_graceful_exit() {
            TerminationRound::Wait(TERMINATION_PAUSE_MILLIS)
        } else {
            let ghost signalled = self.termination_handles@;
            let killed = self.kill_remaining();
            assert forall|i: int|
                0 <= i < killed@.len() implies old(self).termination_handles@.contains_key(
                (#[trigger] killed@[i])@,
            ) by {
                assert(signalled.contains_key(killed@[i]@));
            }
            TerminationRound::Complete(killed)
        }
    }

    /// Wait until all currently registered jobs report their status as ready.
    ///
    /// This is one round of it; `found_ready` is what the round before it found, false at first.
    /// A job that was spawned and is not listed yet is not ready. After each look at the jobs
    /// there is a pause of [`READINESS_PAUSE_MILLIS`], also after the one that finds them ready.
    pub fn wait_for_ready(&self, found_ready: bool) -> (round: ReadinessRound)
        ensures
            round == readiness_round(found_ready, self.all_ready()),
    {
        if found_ready {
            ReadinessRound::Complete
        } else {
            ReadinessRound::Pause(READINESS_PAUSE_MILLIS, self.are_all_ready())
        }
    }

    /// Whether every registered job is listed, and every listed job is ready.
    pub fn are_all_ready(&self) -> (ready: bool)
        ensures
            ready == self.all_ready(),
    {
        proof {
            use_type_invariant(&self.status);
            self.status.lemma_names_are_distinct();
            use_type_invariant(&self.termination_handles);
            self.termination_handles.lemma_names_are_distinct();
        }
        let mut index: usize = 0;
        while index < self.status.len()
            invariant
                index <= self.status.entries().len(),
                self.status.names_are_distinct(),
                forall|i: int|
                    0 <= i < index ==> (#[trigger] self.status.entries()[i]).1 is Ready,
            decreases self.status.entries().len() - index,
        {
            match self.status.value_at(index) {
                JobStatus::Ready(_) => {},
                _ => {
                    proof {
                        registry::lemma_place_is_unique(self.status.entries(), index as int);
                    }
                    return false;
                },
            }
            index = index + 1;
        }
        let mut index: usize = 0;
        while index < self.termination_handles.len()
            invariant
                index <= self.termination_handles.entries().len(),
                self.termination_handles.names_are_distinct(),
                forall|i: int|
                    0 <= i < index ==> self.status@.contains_key(
                        (#[trigger] self.termination_handles.entries()[i]).0,
                    ),
            decreases self.termination_handles.entries().len() - index,
        {
            if self.status.get(self.termination_handles.name_at(index)).is_none() {
                proof {
                    registry::lemma_place_is_unique(
                        self.termination_handles.entries(),
                        index as int,
                    );
                }
                return false;
            }
            index = index + 1;
        }
        true
    }
}

impl Default for JobScheduler {
    fn default() -> (scheduler: Self)
        ensures
            scheduler.status@ == Map::<Seq<char>, JobStatus>::empty(),
            scheduler.status.entries().len() == 0,
            scheduler.termination_handles@ == Map::<Seq<char>, Aborter>::empty(),
            scheduler.termination_handles.entries().len() == 0,
            scheduler.readiness_oneshots@ == Map::<Seq<char>, Announcer>::empty(),
    {
        JobScheduler {
            status: Registry::new(),
            termination_handles: Registry::new(),
            readiness_oneshots: Registry::new(),
        }
    }
}

} // verus!
