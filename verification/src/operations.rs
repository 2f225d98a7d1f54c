//! What each operation of the scheduler does, said of what goes into a call and what comes out.
//!
//! Each statement is about a call that was made: its arguments, with the books before and after
//! it, and its result.

use crate::job::Job;
use crate::lifecycle::{
    JobLifecycle, LifecycleAction, LifecycleEvent, LifecycleExit, LifecyclePhase,
};
use crate::scheduler::{
    JobScheduler, Progress, ReadinessReport, ReadinessRound, Released, ResourceStatus, Spawned,
    TerminationRound,
};
use crate::signals::{Aborter, TerminationHandle};
use crate::status::JobStatus;
use futures::future::AbortHandle;
use tokio::sync::watch;
use vstd::prelude::*;

verus! {

/// A new scheduler knows no job.
pub proof fn law_new_scheduler_is_empty(books: JobScheduler, job_name: Seq<char>)
    requires
        call_ensures(JobScheduler::default, (), books),
    ensures
        !books.status@.contains_key(job_name),
        !books.termination_handles@.contains_key(job_name),
        !books.readiness_oneshots@.contains_key(job_name),
{
}

/// A status that is set is what is listed afterwards, and no other job's entry changes. What was
/// listed before comes back.
pub proof fn law_status_is_set(
    books: &mut JobScheduler,
    job_name: &String,
    status: JobStatus,
    replaced: Option<JobStatus>,
    other: Seq<char>,
)
    requires
        call_ensures(JobScheduler::change_status, (books, job_name, status), replaced),
        other != job_name@,
    ensures
        final(books).status@.contains_key(job_name@),
        final(books).status@[job_name@] == status,
        final(books).status@.contains_key(other) <==> old(books).status@.contains_key(other),
        old(books).status@.contains_key(other) ==> final(books).status@[other]
            == old(books).status@[other],
        replaced is Some <==> old(books).status@.contains_key(job_name@),
        replaced is Some ==> replaced == Some(old(books).status@[job_name@]),
        final(books).termination_handles == old(books).termination_handles,
        final(books).readiness_oneshots == old(books).readiness_oneshots,
{
}

/// Two settings of one job's status: the later one counts, and it hands back the earlier one.
pub proof fn law_last_status_counts(
    first: &mut JobScheduler,
    second: &mut JobScheduler,
    job_name: &String,
    statuses: (JobStatus, JobStatus),
    replaced: (Option<JobStatus>, Option<JobStatus>),
)
    requires
        call_ensures(JobScheduler::change_status, (first, job_name, statuses.0), replaced.0),
        call_ensures(JobScheduler::change_status, (second, job_name, statuses.1), replaced.1),
        *old(second) == *final(first),
    ensures
        replaced.1 == Some(statuses.0),
        final(second).status@[job_name@] == statuses.1,
        final(second).status@.dom() == final(first).status@.dom(),
{
    assert(final(second).status@.dom() =~= final(first).status@.dom());
}

/// A lifecycle starts under the job's name with an instance to be run, and the job is shown as
/// `Startup`, whatever was listed of it before. No other job's entry changes.
pub proof fn law_lifecycle_starts_up<J: Job>(
    books: &mut JobScheduler,
    job: &J,
    started: (JobLifecycle, Progress),
    job_name: Seq<char>,
    other: Seq<char>,
)
    requires
        call_ensures(JobScheduler::start_job_lifecycle::<J>, (books, job), started),
        forall|name: String| #[trigger] call_ensures(J::name, (job,), name) ==> name@ == job_name,
        other != job_name,
    ensures
        started.0.job_name@ == job_name,
        started.0.phase == LifecyclePhase::Running,
        started.1.action is RunInstance,
        final(books).status@.contains_key(job_name),
        final(books).status@[job_name] is Startup,
        final(books).status@.contains_key(other) <==> old(books).status@.contains_key(other),
        old(books).status@.contains_key(other) ==> final(books).status@[other]
            == old(books).status@[other],
        started.1.replaced is Some <==> old(books).status@.contains_key(job_name),
        started.1.replaced is Some ==> started.1.replaced == Some(old(books).status@[job_name]),
        final(books).termination_handles == old(books).termination_handles,
        final(books).readiness_oneshots == old(books).readiness_oneshots,
{
}

/// A step of one job's lifecycle keeps its name and touches nothing but that job's entry in the
/// status list.
pub proof fn law_step_concerns_one_job(
    books: &mut JobScheduler,
    lifecycle: &mut JobLifecycle,
    event: LifecycleEvent,
    progress: Progress,
    other: Seq<char>,
)
    requires
        call_ensures(JobScheduler::manage_job_lifecycle, (books, lifecycle, event), progress),
        other != old(lifecycle).job_name@,
    ensures
        final(lifecycle).job_name == old(lifecycle).job_name,
        final(books).status@.contains_key(other) <==> old(books).status@.contains_key(other),
        old(books).status@.contains_key(other) ==> final(books).status@[other]
            == old(books).status@[other],
        final(books).termination_handles == old(books).termination_handles,
        final(books).readiness_oneshots == old(books).readiness_oneshots,
{
}

/// An instance that exited cleanly: the job is shown as `Finished` and is about to be taken off
/// the list, which the next step does. With that the lifecycle is over.
pub proof fn law_completed_job_finishes(
    first: &mut JobScheduler,
    second: &mut JobScheduler,
    at_first: &mut JobLifecycle,
    at_second: &mut JobLifecycle,
    progress: (Progress, Progress),
)
    requires
        call_ensures(
            JobScheduler::manage_job_lifecycle,
            (first, at_first, LifecycleEvent::Completed),
            progress.0,
        ),
        call_ensures(
            JobScheduler::manage_job_lifecycle,
            (second, at_second, LifecycleEvent::Proceed),
            progress.1,
        ),
        *old(second) == *final(first),
        *old(at_second) == *final(at_first),
    ensures
        ({
            let job_name = old(at_first).job_name@;
            &&& progress.0.action is Proceed
            &&& final(first).status@.contains_key(job_name)
            &&& final(first).status@[job_name] is Finished
            &&& progress.1.action == LifecycleAction::Exit(LifecycleExit::Finished)
            &&& !final(second).status@.contains_key(job_name)
            &&& progress.1.replaced == Some(JobStatus::Finished)
            &&& final(at_second).phase == LifecyclePhase::Ended(LifecycleExit::Finished)
        }),
{
}

/// An instance that exited cleanly: whatever the job was shown as, it is now shown as `Finished`.
pub proof fn law_completed_job_is_shown_as_finished(
    books: &mut JobScheduler,
    lifecycle: &mut JobLifecycle,
    progress: Progress,
)
    requires
        call_ensures(
            JobScheduler::manage_job_lifecycle,
            (books, lifecycle, LifecycleEvent::Completed),
            progress,
        ),
    ensures
        progress.action is Proceed,
        final(lifecycle).phase == LifecyclePhase::Retiring,
        final(books).status@.contains_key(old(lifecycle).job_name@),
        final(books).status@[old(lifecycle).job_name@] is Finished,
        progress.replaced is Some <==> old(books).status@.contains_key(old(lifecycle).job_name@),
        progress.replaced is Some ==> progress.replaced == Some(
            old(books).status@[old(lifecycle).job_name@],
        ),
{
}

/// A job that retires is taken off the list, whatever it was shown as, and its lifecycle is over.
pub proof fn law_retiring_job_vanishes(
    books: &mut JobScheduler,
    lifecycle: &mut JobLifecycle,
    progress: Progress,
)
    requires
        call_ensures(
            JobScheduler::manage_job_lifecycle,
            (books, lifecycle, LifecycleEvent::Proceed),
            progress,
        ),
        old(lifecycle).phase is Retiring,
    ensures
        progress.action == LifecycleAction::Exit(LifecycleExit::Finished),
        final(lifecycle).phase == LifecyclePhase::Ended(LifecycleExit::Finished),
        !final(books).status@.contains_key(old(lifecycle).job_name@),
        progress.replaced is Some <==> old(books).status@.contains_key(old(lifecycle).job_name@),
        progress.replaced is Some ==> progress.replaced == Some(
            old(books).status@[old(lifecycle).job_name@],
        ),
{
}

/// A job that has waited for its delay runs again and is shown as `Restarting`, whatever it was
/// shown as.
pub proof fn law_waiting_job_runs_again(
    books: &mut JobScheduler,
    lifecycle: &mut JobLifecycle,
    progress: Progress,
)
    requires
        call_ensures(
            JobScheduler::manage_job_lifecycle,
            (books, lifecycle, LifecycleEvent::Proceed),
            progress,
        ),
        old(lifecycle).phase is BackingOff,
    ensures
        progress.action is RunInstance,
        final(lifecycle).phase == LifecyclePhase::Running,
        final(books).status@.contains_key(old(lifecycle).job_name@),
        final(books).status@[old(lifecycle).job_name@] is Restarting,
        progress.replaced is Some <==> old(books).status@.contains_key(old(lifecycle).job_name@),
        progress.replaced is Some ==> progress.replaced == Some(
            old(books).status@[old(lifecycle).job_name@],
        ),
{
}

/// A delay that the backoff gives is what is slept, and the status list stays what it is.
pub proof fn law_delay_is_slept(
    books: &mut JobScheduler,
    lifecycle: &mut JobLifecycle,
    delay: core::time::Duration,
    progress: Progress,
)
    requires
        call_ensures(
            JobScheduler::manage_job_lifecycle,
            (books, lifecycle, LifecycleEvent::Backoff(Some(delay))),
            progress,
        ),
    ensures
        progress.action == LifecycleAction::Sleep(delay),
        final(lifecycle).phase == LifecyclePhase::BackingOff,
        final(books).status@ == old(books).status@,
        progress.replaced is None,
{
}

/// An instance that exited with an error: the job is shown as `CrashLoopBackOff`, and the backoff
/// is asked for a delay.
pub proof fn law_failed_job_asks_for_a_delay(
    books: &mut JobScheduler,
    lifecycle: &mut JobLifecycle,
    progress: Progress,
)
    requires
        call_ensures(
            JobScheduler::manage_job_lifecycle,
            (books, lifecycle, LifecycleEvent::Failed),
            progress,
        ),
    ensures
        progress.action is AskBackoff,
        final(lifecycle).phase == LifecyclePhase::Crashed,
        final(books).status@.contains_key(old(lifecycle).job_name@),
        final(books).status@[old(lifecycle).job_name@] is CrashLoopBackOff,
        progress.replaced is Some <==> old(books).status@.contains_key(old(lifecycle).job_name@),
        progress.replaced is Some ==> progress.replaced == Some(
            old(books).status@[old(lifecycle).job_name@],
        ),
{
}

/// A delay that the backoff gives is waited for exactly that long with the status list as it is;
/// the step after it runs the job again, which is shown as `Restarting`.
pub proof fn law_delay_is_waited_and_job_restarts(
    first: &mut JobScheduler,
    second: &mut JobScheduler,
    at_first: &mut JobLifecycle,
    at_second: &mut JobLifecycle,
    delay: core::time::Duration,
    progress: (Progress, Progress),
)
    requires
        call_ensures(
            JobScheduler::manage_job_lifecycle,
            (first, at_first, LifecycleEvent::Backoff(Some(delay))),
            progress.0,
        ),
        call_ensures(
            JobScheduler::manage_job_lifecycle,
            (second, at_second, LifecycleEvent::Proceed),
            progress.1,
        ),
        *old(second) == *final(first),
        *old(at_second) == *final(at_first),
    ensures
        ({
            let job_name = old(at_first).job_name@;
            &&& progress.0.action == LifecycleAction::Sleep(delay)
            &&& progress.0.replaced is None
            &&& final(first).status@ == old(first).status@
            &&& progress.1.action is RunInstance
            &&& final(at_second).phase == LifecyclePhase::Running
            &&& final(second).status@.contains_key(job_name)
            &&& final(second).status@[job_name] is Restarting
        }),
{
}

/// Where the backoff gives no delay, the lifecycle is over and the job is listed as `Terminated`.
pub proof fn law_job_without_delay_is_given_up(
    books: &mut JobScheduler,
    lifecycle: &mut JobLifecycle,
    progress: Progress,
)
    requires
        call_ensures(
            JobScheduler::manage_job_lifecycle,
            (books, lifecycle, LifecycleEvent::Backoff(None)),
            progress,
        ),
    ensures
        progress.action == LifecycleAction::Exit(LifecycleExit::RetriesExhausted),
        final(lifecycle).phase == LifecyclePhase::Ended(LifecycleExit::RetriesExhausted),
        final(books).status@.contains_key(old(lifecycle).job_name@),
        final(books).status@[old(lifecycle).job_name@] is Terminated,
        progress.replaced is Some <==> old(books).status@.contains_key(old(lifecycle).job_name@),
        progress.replaced is Some ==> progress.replaced == Some(
            old(books).status@[old(lifecycle).job_name@],
        ),
{
}

/// An instance that was aborted because it lost a resource: the job runs again at once and is
/// shown as `Restarting`.
pub proof fn law_lost_resource_restarts_the_job(
    books: &mut JobScheduler,
    lifecycle: &mut JobLifecycle,
    progress: Progress,
)
    requires
        call_ensures(
            JobScheduler::manage_job_lifecycle,
            (books, lifecycle, LifecycleEvent::ResourceLost),
            progress,
        ),
    ensures
        progress.action is RunInstance,
        final(lifecycle).phase == LifecyclePhase::Running,
        final(books).status@.contains_key(old(lifecycle).job_name@),
        final(books).status@[old(lifecycle).job_name@] is Restarting,
        progress.replaced is Some <==> old(books).status@.contains_key(old(lifecycle).job_name@),
        progress.replaced is Some ==> progress.replaced == Some(
            old(books).status@[old(lifecycle).job_name@],
        ),
{
}

/// Which event fits which phase: the end of an instance while one runs, the answer of the backoff
/// after a crash, and going on after a clean exit or a wait. After the end none does.
pub proof fn law_events_fit_phases(lifecycle: &JobLifecycle, event: &LifecycleEvent, expected: bool)
    requires
        call_ensures(JobLifecycle::expects, (lifecycle, event), expected),
    ensures
        event is Completed || event is Failed || event is ResourceLost ==> (expected
            <==> lifecycle.phase is Running),
        event is Backoff ==> (expected <==> lifecycle.phase is Crashed),
        event is Proceed ==> (expected <==> lifecycle.phase is Retiring
            || lifecycle.phase is BackingOff),
{
}

/// A lifecycle takes every event that it was found to expect.
pub proof fn law_expected_event_is_taken(
    books: &mut JobScheduler,
    lifecycle: &mut JobLifecycle,
    event: LifecycleEvent,
)
    requires
        call_ensures(JobLifecycle::expects, (&*lifecycle, &event), true),
    ensures
        call_requires(JobScheduler::manage_job_lifecycle, (books, lifecycle, event)),
{
}

/// How an instance ended is told by its result, in whichever way it ended.
pub proof fn law_end_of_instance_is_told<E, A>(
    result: &Result<Result<(), E>, A>,
    event: LifecycleEvent,
)
    requires
        call_ensures(LifecycleEvent::of_instance::<E, A>, (result,), event),
    ensures
        match *result {
            Ok(Ok(_)) => event is Completed,
            Ok(Err(_)) => event is Failed,
            Err(_) => event is ResourceLost,
        },
{
}

/// A lifecycle that was aborted has ended so; another has ended as it says itself.
pub proof fn law_end_of_lifecycle_is_told<A>(
    result: Result<LifecycleExit, A>,
    exit: LifecycleExit,
)
    requires
        call_ensures(LifecycleExit::of_lifecycle::<A>, (result,), exit),
    ensures
        result is Err ==> exit is Aborted,
        result matches Ok(reached) ==> exit == reached,
{
}

/// A job that supports graceful termination gets a handle on the given channel by which nothing
/// was sent yet; otherwise the channel comes back.
pub proof fn law_handle_is_for_graceful_jobs<J: Job>(
    job: &J,
    tx: watch::Sender<Option<()>>,
    handle: Result<TerminationHandle, watch::Sender<Option<()>>>,
    supported: bool,
)
    requires
        call_ensures(JobScheduler::termination_handle::<J>, (job, tx), handle),
        forall|answer: bool| #[trigger]
            call_ensures(J::supports_graceful_termination, (job,), answer) ==> answer == supported,
    ensures
        supported ==> (handle matches Ok(made) && made.sender() == tx && made.sends().len() == 0),
        !supported ==> handle == Err::<TerminationHandle, _>(tx),
{
    TerminationHandle::fresh(tx).lemma_after_send(tx, None);
}

/// A job that reports its readiness is listed as ready with its termination handle, which is used
/// up; the former entry comes back, and no other job's entry changes.
pub proof fn law_reporting_job_is_ready(
    books: &mut JobScheduler,
    job_name: &String,
    handle: &mut Option<TerminationHandle>,
    report: ReadinessReport,
    other: Seq<char>,
)
    requires
        call_ensures(JobScheduler::report_readiness, (books, job_name, true, handle), report),
        other != job_name@,
    ensures
        final(books).status@.contains_key(job_name@),
        final(books).status@[job_name@] == JobStatus::Ready(*old(handle)),
        *final(handle) == None::<TerminationHandle>,
        final(books).status@.contains_key(other) <==> old(books).status@.contains_key(other),
        old(books).status@.contains_key(other) ==> final(books).status@[other]
            == old(books).status@[other],
        report.replaced is Some <==> old(books).status@.contains_key(job_name@),
        report.replaced is Some ==> report.replaced == Some(old(books).status@[job_name@]),
        final(books).termination_handles == old(books).termination_handles,
{
}

/// The readiness of a job is announced exactly where it was still waited for, to the one who waits
/// for that job, and is not waited for afterwards. Others go on waiting.
pub proof fn law_awaited_readiness_is_announced(
    books: &mut JobScheduler,
    job_name: &String,
    handle: &mut Option<TerminationHandle>,
    report: ReadinessReport,
    other: Seq<char>,
)
    requires
        call_ensures(JobScheduler::report_readiness, (books, job_name, true, handle), report),
        other != job_name@,
    ensures
        report.announcement is Some <==> old(books).readiness_oneshots@.contains_key(job_name@),
        report.announcement matches Some(made) ==> made.receiver()
            == old(books).readiness_oneshots@[job_name@].receiver(),
        !final(books).readiness_oneshots@.contains_key(job_name@),
        final(books).readiness_oneshots@.contains_key(other)
            <==> old(books).readiness_oneshots@.contains_key(other),
        old(books).readiness_oneshots@.contains_key(other)
            ==> final(books).readiness_oneshots@[other] == old(books).readiness_oneshots@[other],
{
}

/// An instance that ended without a word changes nothing and announces nothing.
pub proof fn law_silent_job_changes_nothing(
    books: &mut JobScheduler,
    job_name: &String,
    handle: &mut Option<TerminationHandle>,
    report: ReadinessReport,
)
    requires
        call_ensures(JobScheduler::report_readiness, (books, job_name, false, handle), report),
    ensures
        *final(books) == *old(books),
        *final(handle) == *old(handle),
        report.announcement is None,
        report.replaced is None,
{
}

/// What a spawner gets is where the job's first readiness is announced; a second report of the
/// same job announces nothing.
pub proof fn law_spawner_hears_of_readiness_once<J: Job>(
    spawn: &mut JobScheduler,
    job: &J,
    abort_handle: AbortHandle,
    spawned: Spawned,
    first: &mut JobScheduler,
    second: &mut JobScheduler,
    at_first: &mut Option<TerminationHandle>,
    at_second: &mut Option<TerminationHandle>,
    reports: (ReadinessReport, ReadinessReport),
)
    requires
        call_ensures(JobScheduler::spawn_job::<J>, (spawn, job, abort_handle), spawned),
        call_ensures(
            JobScheduler::report_readiness,
            (first, &spawned.job_name, true, at_first),
            reports.0,
        ),
        call_ensures(
            JobScheduler::report_readiness,
            (second, &spawned.job_name, true, at_second),
            reports.1,
        ),
        *old(first) == *final(spawn),
        *old(second) == *final(first),
    ensures
        reports.0.announcement matches Some(made) && made.receiver() == spawned.readiness,
        reports.1.announcement is None,
{
}

/// A dead resource aborts the task that depends on it, once; where no news can come any more, the
/// task is left alone.
pub proof fn law_dead_resource_aborts(
    news: Option<ResourceStatus>,
    aborter: &mut Aborter,
    result: (),
)
    requires
        call_ensures(JobScheduler::resource_changed, (news, aborter), result),
    ensures
        final(aborter).handle() == old(aborter).handle(),
        news is Some ==> final(aborter).aborts() == old(aborter).aborts() + 1,
        news is None ==> *final(aborter) == *old(aborter),
{
    old(aborter).lemma_aborted(old(aborter).handle());
}

/// A spawned job is filed under its own name: its lifecycle can be aborted by the given handle,
/// which was not used yet, and its readiness is waited for. What was filed under the name before
/// comes back. It is not listed by that, and nothing changes for other jobs.
pub proof fn law_spawned_job_is_filed<J: Job>(
    books: &mut JobScheduler,
    job: &J,
    abort_handle: AbortHandle,
    spawned: Spawned,
    job_name: Seq<char>,
    other: Seq<char>,
)
    requires
        call_ensures(JobScheduler::spawn_job::<J>, (books, job, abort_handle), spawned),
        forall|name: String| #[trigger] call_ensures(J::name, (job,), name) ==> name@ == job_name,
        other != job_name,
    ensures
        spawned.job_name@ == job_name,
        final(books).termination_handles@.contains_key(job_name),
        final(books).termination_handles@[job_name].handle() == abort_handle,
        final(books).termination_handles@[job_name].aborts() == 0,
        final(books).readiness_oneshots@.contains_key(job_name),
        final(books).readiness_oneshots@[job_name].receiver() == spawned.readiness,
        spawned.replaced_aborter is Some <==> old(books).termination_handles@.contains_key(
            job_name,
        ),
        spawned.replaced_aborter is Some ==> spawned.replaced_aborter == Some(
            old(books).termination_handles@[job_name],
        ),
        spawned.replaced_announcer is Some <==> old(books).readiness_oneshots@.contains_key(
            job_name,
        ),
        spawned.replaced_announcer is Some ==> spawned.replaced_announcer == Some(
            old(books).readiness_oneshots@[job_name],
        ),
        final(books).status == old(books).status,
        final(books).termination_handles@.contains_key(other)
            <==> old(books).termination_handles@.contains_key(other),
        old(books).termination_handles@.contains_key(other)
            ==> final(books).termination_handles@[other] == old(books).termination_handles@[other],
        final(books).readiness_oneshots@.contains_key(other)
            <==> old(books).readiness_oneshots@.contains_key(other),
        old(books).readiness_oneshots@.contains_key(other)
            ==> final(books).readiness_oneshots@[other] == old(books).readiness_oneshots@[other],
{
    Aborter::fresh(abort_handle).lemma_aborted(abort_handle);
}

/// A job whose lifecycle was aborted is listed as `Terminated`, whatever status it had before;
/// after any other exit the status list is what it was. Other jobs' entries never change by it.
pub proof fn law_aborted_job_is_listed_as_terminated(
    books: &mut JobScheduler,
    job_name: &String,
    exit: LifecycleExit,
    replaced: Option<JobStatus>,
    other: Seq<char>,
)
    requires
        call_ensures(JobScheduler::record_exit, (books, job_name, exit), replaced),
        other != job_name@,
    ensures
        exit is Aborted ==> final(books).status@.contains_key(job_name@),
        exit is Aborted ==> final(books).status@[job_name@] is Terminated,
        exit is Aborted && old(books).status@.contains_key(job_name@) ==> replaced == Some(
            old(books).status@[job_name@],
        ),
        exit is Aborted && !old(books).status@.contains_key(job_name@) ==> replaced is None,
        !(exit is Aborted) ==> final(books).status@ == old(books).status@ && replaced is None,
        final(books).status@.contains_key(other) <==> old(books).status@.contains_key(other),
        old(books).status@.contains_key(other) ==> final(books).status@[other]
            == old(books).status@[other],
        final(books).termination_handles == old(books).termination_handles,
        final(books).readiness_oneshots == old(books).readiness_oneshots,
{
}

/// A job that was released can no longer be aborted. It is off the status list, unless it has
/// exceeded its crash loop limit, in which case its entry stays. What was filed of it comes back,
/// and other jobs are not touched.
pub proof fn law_released_job_is_off_the_books(
    books: &mut JobScheduler,
    job_name: &String,
    exit: LifecycleExit,
    released: Released,
    other: Seq<char>,
)
    requires
        call_ensures(JobScheduler::release_job, (books, job_name, exit), released),
        other != job_name@,
    ensures
        !final(books).termination_handles@.contains_key(job_name@),
        exit is Finished || exit is Aborted ==> !final(books).status@.contains_key(job_name@),
        exit is RetriesExhausted ==> final(books).status@ == old(books).status@,
        final(books).status@.contains_key(other) <==> old(books).status@.contains_key(other),
        old(books).status@.contains_key(other) ==> final(books).status@[other]
            == old(books).status@[other],
        final(books).termination_handles@.contains_key(other)
            <==> old(books).termination_handles@.contains_key(other),
        old(books).termination_handles@.contains_key(other)
            ==> final(books).termination_handles@[other] == old(books).termination_handles@[other],
        released.aborter is Some <==> old(books).termination_handles@.contains_key(job_name@),
        released.aborter is Some ==> released.aborter == Some(
            old(books).termination_handles@[job_name@],
        ),
        released.status is Some <==> !(exit is RetriesExhausted)
            && old(books).status@.contains_key(job_name@),
        released.status is Some ==> released.status == Some(old(books).status@[job_name@]),
        final(books).readiness_oneshots == old(books).readiness_oneshots,
{
}

/// An aborted job is shown as `Terminated` between the two parts of its end, and gone after them.
pub proof fn law_aborted_job_leaves_as_terminated(
    recording: &mut JobScheduler,
    releasing: &mut JobScheduler,
    job_name: &String,
    replaced: Option<JobStatus>,
    released: Released,
)
    requires
        call_ensures(
            JobScheduler::record_exit,
            (recording, job_name, LifecycleExit::Aborted),
            replaced,
        ),
        call_ensures(
            JobScheduler::release_job,
            (releasing, job_name, LifecycleExit::Aborted),
            released,
        ),
        *old(releasing) == *final(recording),
    ensures
        released.status == Some(JobStatus::Terminated),
        !final(releasing).status@.contains_key(job_name@),
        !final(releasing).termination_handles@.contains_key(job_name@),
{
}

/// As long as one job may still exit gracefully, whatever other jobs there are, that is awaited:
/// its lifecycle lasts, and it is listed as ready with a handle by which it can be asked.
pub proof fn law_graceful_exit_is_awaited(
    books: &JobScheduler,
    waiting: bool,
    job_name: Seq<char>,
)
    requires
        call_ensures(JobScheduler::awaits_graceful_exit, (books,), waiting),
        books.termination_handles@.contains_key(job_name),
        books.status@.contains_key(job_name),
        books.status@[job_name] matches JobStatus::Ready(Some(_)),
    ensures
        waiting,
{
}

/// A graceful exit is awaited only where some job may still exit so.
pub proof fn law_nothing_else_is_awaited(books: &JobScheduler, waiting: bool)
    requires
        call_ensures(JobScheduler::awaits_graceful_exit, (books,), waiting),
        forall|job_name: Seq<char>|
            #![trigger books.status@.contains_key(job_name)]
            #![trigger books.termination_handles@.contains_key(job_name)]
            books.termination_handles@.contains_key(job_name) && books.status@.contains_key(
                job_name,
            ) ==> !(books.status@[job_name] matches JobStatus::Ready(Some(_))),
    ensures
        !waiting,
{
}

/// A job that may still exit gracefully gets the time to do so, whatever other jobs there are:
/// each round up to the 60000th calls for a pause of 10ms and leaves the job's lifecycle alone.
pub proof fn law_graceful_job_gets_time(
    books: &mut JobScheduler,
    pauses: u32,
    round: TerminationRound,
    job_name: Seq<char>,
)
    requires
        call_ensures(JobScheduler::terminate_jobs, (books, pauses), round),
        old(books).termination_handles@.contains_key(job_name),
        old(books).status@.contains_key(job_name),
        old(books).status@[job_name] matches JobStatus::Ready(Some(_)),
        pauses < 60000,
    ensures
        round == TerminationRound::Wait(10),
        final(books).termination_handles@.contains_key(job_name),
        final(books).termination_handles@[job_name] == old(books).termination_handles@[job_name],
{
}

/// A round in which no job may exit gracefully any more completes the termination, whatever the
/// number of pauses before it.
pub proof fn law_termination_waits_for_nothing_else(
    books: &mut JobScheduler,
    pauses: u32,
    round: TerminationRound,
)
    requires
        call_ensures(JobScheduler::terminate_jobs, (books, pauses), round),
        forall|job_name: Seq<char>|
            #![trigger old(books).status@.contains_key(job_name)]
            #![trigger old(books).termination_handles@.contains_key(job_name)]
            old(books).termination_handles@.contains_key(job_name)
                && old(books).status@.contains_key(job_name)
                ==> !(old(books).status@[job_name] matches JobStatus::Ready(Some(_))),
    ensures
        round is Complete,
{
}

/// After 60000 pauses the termination is complete, whatever the jobs do.
pub proof fn law_grace_period_ends(books: &mut JobScheduler, pauses: u32, round: TerminationRound)
    requires
        call_ensures(JobScheduler::terminate_jobs, (books, pauses), round),
        pauses >= 60000,
    ensures
        round is Complete,
{
}

/// Where every job has been released, nothing is waited for and nobody is killed.
pub proof fn law_termination_of_no_jobs_is_complete(
    books: &mut JobScheduler,
    pauses: u32,
    round: TerminationRound,
)
    requires
        call_ensures(JobScheduler::terminate_jobs, (books, pauses), round),
        forall|job_name: Seq<char>|
            !(#[trigger] old(books).termination_handles@.contains_key(job_name)),
    ensures
        round matches TerminationRound::Complete(killed) && killed@.len() == 0,
{
    if let TerminationRound::Complete(killed) = round {
        if killed@.len() > 0 {
            assert(old(books).termination_handles@.contains_key(killed@[0]@));
        }
    }
}

/// The first round, and no later one, asks each ready job that can be asked: one `Some(())` is
/// sent by its handle. Nothing else changes in the status list by any round.
pub proof fn law_graceful_jobs_are_asked_at_first(
    books: &mut JobScheduler,
    pauses: u32,
    round: TerminationRound,
    job_name: Seq<char>,
)
    requires
        call_ensures(JobScheduler::terminate_jobs, (books, pauses), round),
        old(books).status@.contains_key(job_name),
    ensures
        final(books).status@.contains_key(job_name),
        pauses > 0 ==> final(books).status@[job_name] == old(books).status@[job_name],
        !(old(books).status@[job_name] matches JobStatus::Ready(Some(_)))
            ==> final(books).status@[job_name] == old(books).status@[job_name],
        old(books).status@[job_name] matches JobStatus::Ready(Some(handle)) ==> (pauses == 0 ==> (
        final(books).status@[job_name] matches JobStatus::Ready(Some(asked)) && asked.sender()
            == handle.sender() && asked.sends() == handle.sends().push(Some(())))),
{
    if let JobStatus::Ready(Some(handle)) = old(books).status@[job_name] {
        handle.lemma_after_send(handle.sender(), Some(()));
    }
}

/// A round of the termination lists no job and takes none off: who was listed and who could be
/// aborted stays so. And nobody's readiness is announced by it.
pub proof fn law_termination_keeps_the_books(
    books: &mut JobScheduler,
    pauses: u32,
    round: TerminationRound,
    job_name: Seq<char>,
)
    requires
        call_ensures(JobScheduler::terminate_jobs, (books, pauses), round),
    ensures
        final(books).status@.contains_key(job_name) <==> old(books).status@.contains_key(job_name),
        final(books).termination_handles@.contains_key(job_name)
            <==> old(books).termination_handles@.contains_key(job_name),
        final(books).readiness_oneshots == old(books).readiness_oneshots,
{
}

/// The first round aborts each listed job that cannot be asked; a round that calls for a pause
/// aborts no other. The last round aborts every job whose lifecycle still lasts.
pub proof fn law_who_is_aborted_when(
    books: &mut JobScheduler,
    pauses: u32,
    round: TerminationRound,
    job_name: Seq<char>,
)
    requires
        call_ensures(JobScheduler::terminate_jobs, (books, pauses), round),
        old(books).termination_handles@.contains_key(job_name),
    ensures
        ({
            let before = old(books).termination_handles@[job_name];
            let after = final(books).termination_handles@[job_name];
            let listed = old(books).status@.contains_key(job_name);
            let can_be_asked = old(books).status@[job_name] matches JobStatus::Ready(Some(_));
            let forced: nat = if pauses == 0 && listed && !can_be_asked {
                1
            } else {
                0
            };
            let killed: nat = if round is Complete {
                1
            } else {
                0
            };
            &&& after.handle() == before.handle()
            &&& after.aborts() == before.aborts() + forced + killed
        }),
{
    let before = old(books).termination_handles@[job_name];
    before.lemma_aborted(before.handle());
    before.aborted().lemma_aborted(before.handle());
}

/// The last round names the jobs that it killed: each job whose lifecycle still lasted, once, and
/// no other.
pub proof fn law_killed_jobs_are_named(
    books: &mut JobScheduler,
    pauses: u32,
    round: TerminationRound,
    killed: Vec<String>,
    job_name: Seq<char>,
)
    requires
        call_ensures(JobScheduler::terminate_jobs, (books, pauses), round),
        round == TerminationRound::Complete(killed),
    ensures
        old(books).termination_handles@.contains_key(job_name) <==> exists|i: int|
            0 <= i < killed@.len() && (#[trigger] killed@[i])@ == job_name,
        forall|i: int, j: int|
            0 <= i < j < killed@.len() ==> (#[trigger] killed@[i])@ != (#[trigger] killed@[j])@,
{
}

/// The signal of termination alone: a ready job that can be asked is asked, once, and any other
/// listed job is aborted, once. A job that is not listed is left alone.
pub proof fn law_termination_signal(
    books: &mut JobScheduler,
    result: (),
    job_name: Seq<char>,
)
    requires
        call_ensures(JobScheduler::signal_termination, (books,), result),
    ensures
        final(books).status@.contains_key(job_name) <==> old(books).status@.contains_key(job_name),
        final(books).termination_handles@.contains_key(job_name)
            <==> old(books).termination_handles@.contains_key(job_name),
        final(books).readiness_oneshots == old(books).readiness_oneshots,
        old(books).status@.contains_key(job_name) ==> match old(books).status@[job_name] {
            JobStatus::Ready(Some(handle)) => {
                &&& final(books).status@[job_name] matches JobStatus::Ready(Some(asked))
                &&& asked.sender() == handle.sender()
                &&& asked.sends() == handle.sends().push(Some(()))
            },
            unasked => final(books).status@[job_name] == unasked,
        },
        old(books).termination_handles@.contains_key(job_name) ==> {
            let before = old(books).termination_handles@[job_name];
            let after = final(books).termination_handles@[job_name];
            let spared = !old(books).status@.contains_key(job_name) || (
            old(books).status@[job_name] matches JobStatus::Ready(Some(_)));
            &&& after.handle() == before.handle()
            &&& after.aborts() == if spared {
                before.aborts()
            } else {
                before.aborts() + 1
            }
        },
{
    if let JobStatus::Ready(Some(handle)) = old(books).status@[job_name] {
        handle.lemma_after_send(handle.sender(), Some(()));
    }
    let before = old(books).termination_handles@[job_name];
    before.lemma_aborted(before.handle());
    assert(final(books).termination_handles@.contains_key(job_name)
        <==> old(books).termination_handles@.contains_key(job_name));
}

/// The kill alone: every job whose lifecycle still lasts is aborted, once, and named, once. The
/// status list stays what it is.
pub proof fn law_kill_reaches_everyone(
    books: &mut JobScheduler,
    killed: Vec<String>,
    job_name: Seq<char>,
)
    requires
        call_ensures(JobScheduler::kill_remaining, (books,), killed),
    ensures
        final(books).termination_handles@.contains_key(job_name)
            <==> old(books).termination_handles@.contains_key(job_name),
        old(books).termination_handles@.contains_key(job_name) ==> {
            let before = old(books).termination_handles@[job_name];
            let after = final(books).termination_handles@[job_name];
            after.handle() == before.handle() && after.aborts() == before.aborts() + 1
        },
        old(books).termination_handles@.contains_key(job_name) <==> exists|i: int|
            0 <= i < killed@.len() && (#[trigger] killed@[i])@ == job_name,
        forall|i: int, j: int|
            0 <= i < j < killed@.len() ==> (#[trigger] killed@[i])@ != (#[trigger] killed@[j])@,
        final(books).status == old(books).status,
        final(books).readiness_oneshots == old(books).readiness_oneshots,
{
    let before = old(books).termination_handles@[job_name];
    before.lemma_aborted(before.handle());
}

/// Where every listed job is ready, with or without a termination handle, and every registered
/// job is listed, all are ready: the waiting makes one more pause of 100ms and ends.
pub proof fn law_ready_jobs_end_the_waiting(
    books: &JobScheduler,
    ready: bool,
    rounds: (ReadinessRound, ReadinessRound),
)
    requires
        call_ensures(JobScheduler::are_all_ready, (books,), ready),
        call_ensures(JobScheduler::wait_for_ready, (books, false), rounds.0),
        call_ensures(JobScheduler::wait_for_ready, (books, ready), rounds.1),
        forall|job_name: Seq<char>| #[trigger]
            books.status@.contains_key(job_name) ==> (
            books.status@[job_name] matches JobStatus::Ready(_)),
        forall|job_name: Seq<char>| #[trigger]
            books.termination_handles@.contains_key(job_name) ==> books.status@.contains_key(
                job_name,
            ),
    ensures
        ready,
        rounds.0 == ReadinessRound::Pause(100, true),
        rounds.1 == ReadinessRound::Complete,
{
}

/// One listed job that is not ready, or one registered job that is not listed, keeps the waiting
/// going: it pauses for 100ms and has found nothing.
pub proof fn law_unready_job_is_waited_for(
    books: &JobScheduler,
    ready: bool,
    round: ReadinessRound,
    job_name: Seq<char>,
)
    requires
        call_ensures(JobScheduler::are_all_ready, (books,), ready),
        call_ensures(JobScheduler::wait_for_ready, (books, false), round),
        books.status@.contains_key(job_name) && !(books.status@[job_name] is Ready) || (
        books.termination_handles@.contains_key(job_name) && !books.status@.contains_key(job_name)),
    ensures
        !ready,
        round == ReadinessRound::Pause(100, false),
{
}

/// A waiting that has found all jobs ready is over, whatever became of them since.
pub proof fn law_found_readiness_ends_the_waiting(books: &JobScheduler, round: ReadinessRound)
    requires
        call_ensures(JobScheduler::wait_for_ready, (books, true), round),
    ensures
        round == ReadinessRound::Complete,
{
}

} // verus!
