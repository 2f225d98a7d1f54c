//! The course of a job from its start to its end: which status it has, when an instance of it
//! runs, and when it is given up.

use crate::signals::TerminationHandle;
use crate::status::JobStatus;
use core::time::Duration;
use vstd::prelude::*;

verus! {

/// Where the lifecycle of a job stands.
#[derive(Clone, Copy, Debug, PartialEq, Eq, Structural)]
pub enum LifecyclePhase {
    /// An instance of the job is running.
    Running,
    /// The last instance has exited cleanly, the job is about to be taken off the status list.
    Retiring,
    /// The last instance has exited with an error, no retry is decided yet.
    Crashed,
    /// The job waits before it is retried.
    BackingOff,
    /// The lifecycle is over.
    Ended(LifecycleExit),
}

/// How a lifecycle came to its end.
#[derive(Clone, Copy, Debug, PartialEq, Eq, Structural)]
pub enum LifecycleExit {
    /// The job has exited cleanly.
    Finished,
    /// The job has crashed once more than it may be retried.
    RetriesExhausted,
    /// The lifecycle was aborted from outside.
    Aborted,
}

/// What happens to a lifecycle.
#[derive(Debug)]
pub enum LifecycleEvent {
    /// The running instance has exited cleanly.
    Completed,
    /// The running instance has exited with an error.
    Failed,
    /// The running instance was aborted because it lost a resource.
    ResourceLost,
    /// The time to wait before the next retry, if there may be one.
    Backoff(Option<Duration>),
    /// The last action has been carried out.
    Proceed,
}

/// What is to be done before the next event.
#[derive(Debug)]
pub enum LifecycleAction {
    /// Run an instance of the job; the event is how it ended.
    RunInstance,
    /// Ask the backoff for the next delay; the event is its answer.
    AskBackoff,
    /// Wait for this long, then proceed.
    Sleep(Duration),
    /// Proceed at once.
    Proceed,
    /// The lifecycle is over.
    Exit(LifecycleExit),
}

/// The lifecycle of one job.
pub struct JobLifecycle {
    pub job_name: String,
    pub phase: LifecyclePhase,
}

/// What becomes of the job's entry in the status list.
pub enum StatusUpdate {
    Keep,
    Become(JobStatus),
    Vanish,
}

/// One step of a lifecycle.
pub struct LifecycleStep {
    pub phase: LifecyclePhase,
    pub update: StatusUpdate,
    pub action: LifecycleAction,
}

impl LifecyclePhase {
    /// The events that can happen in this phase.
    pub open spec fn expects(self, event: LifecycleEvent) -> bool {
        match self {
            LifecyclePhase::Running => event is Completed || event is Failed
                || event is ResourceLost,
            LifecyclePhase::Crashed => event is Backoff,
            LifecyclePhase::Retiring | LifecyclePhase::BackingOff => event is Proceed,
            LifecyclePhase::Ended(_) => false,
        }
    }
}

/// The step that `event` causes in `phase`.
pub open spec fn lifecycle_step(phase: LifecyclePhase, event: LifecycleEvent) -> LifecycleStep
    recommends
        phase.expects(event),
{
    match event {
        LifecycleEvent::Completed => LifecycleStep {
            phase: LifecyclePhase::Retiring,
            update: StatusUpdate::Become(JobStatus::Finished),
            action: LifecycleAction::Proceed,
        },
        LifecycleEvent::Failed => LifecycleStep {
            phase: LifecyclePhase::Crashed,
            update: StatusUpdate::Become(JobStatus::CrashLoopBackOff),
            action: LifecycleAction::AskBackoff,
        },
        LifecycleEvent::ResourceLost => LifecycleStep {
            phase: LifecyclePhase::Running,
            update: StatusUpdate::Become(JobStatus::Restarting),
            action: LifecycleAction::RunInstance,
        },
        LifecycleEvent::Backoff(Some(delay)) => LifecycleStep {
            phase: LifecyclePhase::BackingOff,
            update: StatusUpdate::Keep,
            action: LifecycleAction::Sleep(delay),
        },
        LifecycleEvent::Backoff(None) => LifecycleStep {
            phase: LifecyclePhase::Ended(LifecycleExit::RetriesExhausted),
            update: StatusUpdate::Become(JobStatus::Terminated),
            action: LifecycleAction::Exit(LifecycleExit::RetriesExhausted),
        },
        LifecycleEvent::Proceed => if phase is Retiring {
            LifecycleStep {
                phase: LifecyclePhase::Ended(LifecycleExit::Finished),
                update: StatusUpdate::Vanish,
                action: LifecycleAction::Exit(LifecycleExit::Finished),
            }
        } else {
            LifecycleStep {
                phase: LifecyclePhase::Running,
                update: StatusUpdate::Become(JobStatus::Restarting),
                action: LifecycleAction::RunInstance,
            }
        },
    }
}

/// The status list after `update` to the entry of `job_name`.
pub open spec fn updated(
    status: Map<Seq<char>, JobStatus>,
    job_name: Seq<char>,
    update: StatusUpdate,
) -> Map<Seq<char>, JobStatus> {
    match update {
        StatusUpdate::Keep => status,
        StatusUpdate::Become(job_status) => status.insert(job_name, job_status),
        StatusUpdate::Vanish => status.remove(job_name),
    }
}

impl LifecycleEvent {
    /// The event that the end of an instance is: `result` is an error where the instance was
    /// aborted, otherwise it holds what the job returned.
    pub fn of_instance<E, A>(result: &Result<Result<(), E>, A>) -> (event: LifecycleEvent)
        ensures
            event is Completed <==> (*result matches Ok(Ok(_))),
            event is Failed <==> (*result matches Ok(Err(_))),
            event is ResourceLost <==> (*result matches Err(_)),
    {
        match result {
            Ok(returned) => match returned {
                Ok(_) => LifecycleEvent::Completed,
                Err(_) => LifecycleEvent::Failed,
            },
            Err(_) => LifecycleEvent::ResourceLost,
        }
    }
}

impl LifecycleExit {
    /// How a lifecycle came to its end: `result` is an error where it was aborted, otherwise it
    /// holds the exit that the lifecycle reached by itself.
    pub fn of_lifecycle<A>(result: Result<LifecycleExit, A>) -> (exit: LifecycleExit)
        ensures
            exit == match result {
                Ok(reached) => reached,
                Err(_) => LifecycleExit::Aborted,
            },
    {
        match result {
            Ok(reached) => reached,
            Err(_) => LifecycleExit::Aborted,
        }
    }
}

impl JobLifecycle {
    /// Whether `event` can happen now.
    pub fn expects(&self, event: &LifecycleEvent) -> (expected: bool)
        ensures
            expected == self.phase.expects(*event),
    {
        match event {
            LifecycleEvent::Completed | LifecycleEvent::Failed | LifecycleEvent::ResourceLost =>
            self.phase == LifecyclePhase::Running,
            LifecycleEvent::Backoff(_) => self.phase == LifecyclePhase::Crashed,
            LifecycleEvent::Proceed => self.phase == LifecyclePhase::Retiring || self.phase
                == LifecyclePhase::BackingOff,
        }
    }
}

/// What can happen to a job's entry in the status list while its lifecycle lasts.
pub enum JobMove {
    /// An event of the lifecycle.
    Event(LifecycleEvent),
    /// The running instance reports that it is ready and leaves this termination handle.
    Readiness(Option<TerminationHandle>),
}

/// A lifecycle's phase together with the status list.
pub struct JobCourse {
    pub phase: LifecyclePhase,
    pub status: Map<Seq<char>, JobStatus>,
}

impl JobCourse {
    /// The course right after the lifecycle of `job_name` was started.
    pub open spec fn started(status: Map<Seq<char>, JobStatus>, job_name: Seq<char>) -> JobCourse {
        JobCourse {
            phase: LifecyclePhase::Running,
            status: status.insert(job_name, JobStatus::Startup),
        }
    }

    /// The moves that can come next. Only a running instance reports that it is ready.
    pub open spec fn admits(self, step: JobMove) -> bool {
        match step {
            JobMove::Event(event) => self.phase.expects(event),
            JobMove::Readiness(_) => self.phase is Running,
        }
    }

    /// The course after one move.
    pub open spec fn after(self, job_name: Seq<char>, step: JobMove) -> JobCourse {
        match step {
            JobMove::Event(event) => JobCourse {
                phase: lifecycle_step(self.phase, event).phase,
                status: updated(self.status, job_name, lifecycle_step(self.phase, event).update),
            },
            JobMove::Readiness(handle) => JobCourse {
                phase: self.phase,
                status: self.status.insert(job_name, JobStatus::Ready(handle)),
            },
        }
    }

    /// The course after `moves`.
    pub open spec fn after_all(self, job_name: Seq<char>, moves: Seq<JobMove>) -> JobCourse
        decreases moves.len(),
    {
        if moves.len() == 0 {
            self
        } else {
            self.after_all(job_name, moves.drop_last()).after(job_name, moves.last())
        }
    }

    /// Each of `moves` can come when its turn is.
    pub open spec fn admits_all(self, job_name: Seq<char>, moves: Seq<JobMove>) -> bool
        decreases moves.len(),
    {
        moves.len() > 0 ==> {
            &&& self.admits_all(job_name, moves.drop_last())
            &&& self.after_all(job_name, moves.drop_last()).admits(moves.last())
        }
    }

    /// The job's entry is the one that the phase calls for. At the end it is `Terminated` where
    /// the job was given up and gone where it has finished; no lifecycle aborts itself.
    pub open spec fn is_consistent(self, job_name: Seq<char>) -> bool {
        let listed = self.status.contains_key(job_name);
        let job_status = self.status[job_name];
        match self.phase {
            LifecyclePhase::Running => listed && (job_status is Startup || job_status is Restarting
                || job_status is Ready),
            LifecyclePhase::Retiring => listed && job_status is Finished,
            LifecyclePhase::Crashed | LifecyclePhase::BackingOff => listed
                && job_status is CrashLoopBackOff,
            LifecyclePhase::Ended(LifecycleExit::Finished) => !listed,
            LifecyclePhase::Ended(LifecycleExit::RetriesExhausted) => listed
                && job_status is Terminated,
            LifecyclePhase::Ended(LifecycleExit::Aborted) => false,
        }
    }
}

/// In every state that a lifecycle can reach, the job's entry in the status list is the one that
/// the phase calls for, and the entries of other jobs are what they were.
pub proof fn law_status_follows_lifecycle(
    status: Map<Seq<char>, JobStatus>,
    job_name: Seq<char>,
    moves: Seq<JobMove>,
)
    requires
        JobCourse::started(status, job_name).admits_all(job_name, moves),
    ensures
        ({
            let reached = JobCourse::started(status, job_name).after_all(job_name, moves);
            &&& reached.is_consistent(job_name)
            &&& reached.status.remove(job_name) == status.remove(job_name)
        }),
    decreases moves.len(),
{
    let start = JobCourse::started(status, job_name);
    if moves.len() == 0 {
        assert(start.status.remove(job_name) =~= status.remove(job_name));
    } else {
        law_status_follows_lifecycle(status, job_name, moves.drop_last());
        let before = start.after_all(job_name, moves.drop_last());
        let reached = start.after_all(job_name, moves);
        assert(reached.status.remove(job_name) =~= before.status.remove(job_name));
    }
}

/// Some of `moves` is an event of the lifecycle.
pub open spec fn some_event(moves: Seq<JobMove>) -> bool {
    exists|i: int| 0 <= i < moves.len() && #[trigger] moves[i] is Event
}

/// A job is shown as `Startup` when its lifecycle starts and never again after the first event.
pub proof fn law_startup_is_shown_at_first_only(
    status: Map<Seq<char>, JobStatus>,
    job_name: Seq<char>,
    moves: Seq<JobMove>,
)
    requires
        JobCourse::started(status, job_name).admits_all(job_name, moves),
    ensures
        ({
            let reached = JobCourse::started(status, job_name).after_all(job_name, moves);
            &&& moves.len() == 0 ==> reached.status[job_name] is Startup
            &&& some_event(moves) && reached.status.contains_key(job_name) ==> !(
            reached.status[job_name] is Startup)
        }),
    decreases moves.len(),
{
    if moves.len() > 0 {
        let earlier = moves.drop_last();
        law_startup_is_shown_at_first_only(status, job_name, earlier);
        law_status_follows_lifecycle(status, job_name, earlier);
        if some_event(moves) && !(moves.last() is Event) {
            let i = choose|i: int| 0 <= i < moves.len() && #[trigger] moves[i] is Event;
            assert(earlier[i] is Event);
        }
    }
}

/// The phase of a lifecycle after `events`.
pub open spec fn phase_after(events: Seq<LifecycleEvent>) -> LifecyclePhase
    decreases events.len(),
{
    if events.len() == 0 {
        LifecyclePhase::Running
    } else {
        lifecycle_step(phase_after(events.drop_last()), events.last()).phase
    }
}

/// Each of `events` can happen when its turn is.
pub open spec fn can_happen(events: Seq<LifecycleEvent>) -> bool
    decreases events.len(),
{
    events.len() > 0 ==> {
        &&& can_happen(events.drop_last())
        &&& phase_after(events.drop_last()).expects(events.last())
    }
}

/// The actions of a lifecycle from its start, which runs the first instance, through `events`.
pub open spec fn actions_through(events: Seq<LifecycleEvent>) -> Seq<LifecycleAction>
    decreases events.len(),
{
    if events.len() == 0 {
        seq![LifecycleAction::RunInstance]
    } else {
        actions_through(events.drop_last()).push(
            lifecycle_step(phase_after(events.drop_last()), events.last()).action,
        )
    }
}

/// How many instances are run by `actions`.
pub open spec fn instances_run(actions: Seq<LifecycleAction>) -> nat
    decreases actions.len(),
{
    if actions.len() == 0 {
        0
    } else {
        instances_run(actions.drop_last()) + if actions.last() is RunInstance {
            1nat
        } else {
            0nat
        }
    }
}

/// The times that are waited by `actions`, in order.
pub open spec fn times_slept(actions: Seq<LifecycleAction>) -> Seq<Duration>
    decreases actions.len(),
{
    if actions.len() == 0 {
        Seq::empty()
    } else {
        match actions.last() {
            LifecycleAction::Sleep(delay) => times_slept(actions.drop_last()).push(delay),
            _ => times_slept(actions.drop_last()),
        }
    }
}

/// What happens to a job that crashes each time, as long as the backoff gives `delays`.
pub open spec fn crashes_and_retries(delays: Seq<Duration>) -> Seq<LifecycleEvent>
    decreases delays.len(),
{
    if delays.len() == 0 {
        Seq::empty()
    } else {
        crashes_and_retries(delays.drop_last()).push(LifecycleEvent::Failed).push(
            LifecycleEvent::Backoff(Some(delays.last())),
        ).push(LifecycleEvent::Proceed)
    }
}

/// What happens to a job that always crashes where the backoff gives `delays` and no more.
pub open spec fn crash_loop(delays: Seq<Duration>) -> Seq<LifecycleEvent> {
    crashes_and_retries(delays).push(LifecycleEvent::Failed).push(LifecycleEvent::Backoff(None))
}

/// One more event: what it does to all that is said of the events before it.
proof fn lemma_one_more_event(events: Seq<LifecycleEvent>, event: LifecycleEvent)
    ensures
        ({
            let more = events.push(event);
            let step = lifecycle_step(phase_after(events), event);
            &&& phase_after(more) == step.phase
            &&& can_happen(more) == (can_happen(events) && phase_after(events).expects(event))
            &&& instances_run(actions_through(more)) == instances_run(actions_through(events))
                + if step.action is RunInstance {
                1nat
            } else {
                0nat
            }
            &&& times_slept(actions_through(more)) == match step.action {
                LifecycleAction::Sleep(delay) => times_slept(actions_through(events)).push(delay),
                _ => times_slept(actions_through(events)),
            }
        }),
{
    let more = events.push(event);
    assert(more.drop_last() =~= events);
    let action = lifecycle_step(phase_after(events), event).action;
    assert(actions_through(more).drop_last() =~= actions_through(events));
    assert(actions_through(more).last() == action);
}

/// After some crashes and retries the job runs again, once for each delay besides the first time.
proof fn lemma_crashes_and_retries(delays: Seq<Duration>)
    ensures
        ({
            let events = crashes_and_retries(delays);
            &&& can_happen(events)
            &&& phase_after(events) is Running
            &&& instances_run(actions_through(events)) == delays.len() + 1
            &&& times_slept(actions_through(events)) == delays
        }),
    decreases delays.len(),
{
    if delays.len() == 0 {
        let start = seq![LifecycleAction::RunInstance];
        assert(start.drop_last() =~= Seq::<LifecycleAction>::empty());
        assert(actions_through(Seq::empty()) == start);
        assert(instances_run(start.drop_last()) == 0);
        assert(times_slept(start.drop_last()) =~= delays);
    } else {
        lemma_crashes_and_retries(delays.drop_last());
        let before = crashes_and_retries(delays.drop_last());
        let delay = delays.last();
        let crashed = before.push(LifecycleEvent::Failed);
        let waiting = crashed.push(LifecycleEvent::Backoff(Some(delay)));
        lemma_one_more_event(before, LifecycleEvent::Failed);
        lemma_one_more_event(crashed, LifecycleEvent::Backoff(Some(delay)));
        lemma_one_more_event(waiting, LifecycleEvent::Proceed);
        assert(delays.drop_last().push(delay) =~= delays);
    }
}

/// A job that always crashes runs once more than there are delays, waits each of them in order,
/// and is then given up.
pub proof fn law_crash_loop_uses_every_delay(delays: Seq<Duration>)
    ensures
        ({
            let events = crash_loop(delays);
            &&& can_happen(events)
            &&& phase_after(events) == LifecyclePhase::Ended(LifecycleExit::RetriesExhausted)
            &&& instances_run(actions_through(events)) == delays.len() + 1
            &&& times_slept(actions_through(events)) == delays
        }),
{
    lemma_crashes_and_retries(delays);
    let before = crashes_and_retries(delays);
    lemma_one_more_event(before, LifecycleEvent::Failed);
    lemma_one_more_event(before.push(LifecycleEvent::Failed), LifecycleEvent::Backoff(None));
}

/// A job that crashes and may be retried waits for the given delay, shown as
/// `CrashLoopBackOff`, and then runs again, shown as `Restarting`.
pub proof fn law_crashed_job_is_retried(
    status: Map<Seq<char>, JobStatus>,
    job_name: Seq<char>,
    delay: Duration,
)
    ensures
        ({
            let crash = lifecycle_step(LifecyclePhase::Running, LifecycleEvent::Failed);
            let wait = lifecycle_step(crash.phase, LifecycleEvent::Backoff(Some(delay)));
            let retry = lifecycle_step(wait.phase, LifecycleEvent::Proceed);
            let waiting = updated(updated(status, job_name, crash.update), job_name, wait.update);
            &&& crash.action is AskBackoff
            &&& crash.phase.expects(LifecycleEvent::Backoff(Some(delay)))
            &&& wait.action == LifecycleAction::Sleep(delay)
            &&& wait.phase.expects(LifecycleEvent::Proceed)
            &&& waiting == status.insert(job_name, JobStatus::CrashLoopBackOff)
            &&& retry.action is RunInstance
            &&& retry.phase is Running
            &&& updated(waiting, job_name, retry.update) == status.insert(
                job_name,
                JobStatus::Restarting,
            )
        }),
{
    assert(status.insert(job_name, JobStatus::CrashLoopBackOff).insert(
        job_name,
        JobStatus::Restarting,
    ) =~= status.insert(job_name, JobStatus::Restarting));
}

/// A job that loses a resource runs again at once, shown as `Restarting`.
pub proof fn law_job_without_resource_is_restarted(
    status: Map<Seq<char>, JobStatus>,
    job_name: Seq<char>,
)
    ensures
        ({
            let step = lifecycle_step(LifecyclePhase::Running, LifecycleEvent::ResourceLost);
            &&& step.action is RunInstance
            &&& step.phase is Running
            &&& updated(status, job_name, step.update) == status.insert(
                job_name,
                JobStatus::Restarting,
            )
        }),
{
}

/// A lifecycle is over exactly where it was told to exit, and until then it expects an event
/// that fits the last action.
pub proof fn law_lifecycle_never_stalls(phase: LifecyclePhase, event: LifecycleEvent)
    requires
        phase.expects(event),
    ensures
        ({
            let step = lifecycle_step(phase, event);
            &&& step.action is Exit <==> step.phase is Ended
            &&& match step.action {
                LifecycleAction::RunInstance => step.phase.expects(LifecycleEvent::Completed)
                    && step.phase.expects(LifecycleEvent::Failed) && step.phase.expects(
                    LifecycleEvent::ResourceLost,
                ),
                LifecycleAction::AskBackoff => forall|answer: Option<Duration>|
                    #[trigger] step.phase.expects(LifecycleEvent::Backoff(answer)),
                LifecycleAction::Sleep(_) | LifecycleAction::Proceed => step.phase.expects(
                    LifecycleEvent::Proceed,
                ),
                LifecycleAction::Exit(exit) => step.phase == LifecyclePhase::Ended(exit) && (
                forall|later: LifecycleEvent| !(#[trigger] step.phase.expects(later))),
            }
        }),
{
}

} // verus!
