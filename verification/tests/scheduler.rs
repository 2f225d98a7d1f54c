use futures::future::AbortHandle;
use jatsl::job::Job;
use jatsl::lifecycle::LifecycleExit;
use jatsl::scheduler::{
    JobScheduler, ReadinessRound, ResourceStatus, TerminationRound, READINESS_PAUSE_MILLIS,
    TERMINATION_PAUSE_MILLIS, TERMINATION_ROUNDS,
};
use jatsl::signals::{Aborter, TerminationHandle};
use jatsl::status::JobStatus;
use jatsl::tasks::AbortableJoinHandle;
use tokio::sync::{oneshot, watch};

struct Plain;

impl Job for Plain {
    const NAME: &'static str = "plain";
}

struct Graceful;

impl Job for Graceful {
    const NAME: &'static str = "graceful";
    const SUPPORTS_GRACEFUL_TERMINATION: bool = true;
}

struct Named(&'static str, bool);

impl Job for Named {
    const NAME: &'static str = "unused";

    fn name(&self) -> String {
        self.0.to_string()
    }

    fn supports_graceful_termination(&self) -> bool {
        self.1
    }
}

fn name(text: &str) -> String {
    text.to_string()
}

fn handle() -> AbortHandle {
    AbortHandle::new_pair().0
}

fn status_word(scheduler: &JobScheduler, job_name: &str) -> Option<String> {
    scheduler.status.get(&name(job_name)).map(|status| status.to_string())
}

fn ready_with(tx: watch::Sender<Option<()>>) -> JobStatus {
    JobStatus::Ready(Some(TerminationHandle::new(tx)))
}

/// Reports readiness and tells whether the announcement was received, if one was made.
fn report(scheduler: &mut JobScheduler, job_name: &str, reported: bool) -> Option<bool> {
    let report = scheduler.report_readiness(&name(job_name), reported, &mut None);
    report.announcement.map(|announcement| announcement.received)
}

#[test]
fn a_new_scheduler_has_no_jobs() {
    let scheduler = JobScheduler::default();
    assert_eq!(scheduler.status.len(), 0);
    assert_eq!(scheduler.termination_handles.len(), 0);
    assert_eq!(scheduler.readiness_oneshots.len(), 0);
}

#[test]
fn pauses_are_those_of_the_grace_period() {
    assert_eq!(TERMINATION_ROUNDS, 60000);
    assert_eq!(TERMINATION_PAUSE_MILLIS, 10);
    assert_eq!(READINESS_PAUSE_MILLIS, 100);
}

#[test]
fn change_status_replaces_the_entry_of_one_job() {
    let mut scheduler = JobScheduler::default();
    scheduler.change_status(&name("a"), JobStatus::Startup);
    scheduler.change_status(&name("b"), JobStatus::Restarting);
    scheduler.change_status(&name("a"), JobStatus::CrashLoopBackOff);
    assert_eq!(scheduler.status.len(), 2);
    assert_eq!(status_word(&scheduler, "a"), Some(name("CrashLoopBackOff")));
    assert_eq!(status_word(&scheduler, "b"), Some(name("Restarting")));
    assert_eq!(status_word(&scheduler, "c"), None);
}

#[test]
fn termination_handle_is_kept_for_graceful_jobs_only() {
    let (tx, _rx) = watch::channel(None);
    assert!(JobScheduler::termination_handle(&Plain, tx).is_err());
    let (tx, _rx) = watch::channel(None);
    assert!(JobScheduler::termination_handle(&Graceful, tx).is_ok());
    let (tx, _rx) = watch::channel(None);
    assert!(JobScheduler::termination_handle(&Named("x", true), tx).is_ok());
    let (tx, _rx) = watch::channel(None);
    assert!(JobScheduler::termination_handle(&Named("x", false), tx).is_err());
}

#[test]
fn spawned_job_is_announced_to_its_spawner_once() {
    let mut scheduler = JobScheduler::default();
    let spawned = scheduler.spawn_job(&Plain, handle());
    let mut readiness = spawned.readiness;
    assert_eq!(spawned.job_name, "plain");
    assert!(spawned.replaced_announcer.is_none() && spawned.replaced_aborter.is_none());
    assert_eq!(scheduler.status.len(), 0);
    assert!(scheduler.termination_handles.get(&name("plain")).is_some());
    assert_eq!(readiness.try_recv(), Err(oneshot::error::TryRecvError::Empty));

    assert_eq!(report(&mut scheduler, "plain", true), Some(true));
    assert_eq!(readiness.try_recv(), Ok(()));
    assert_eq!(status_word(&scheduler, "plain"), Some(name("Ready")));
    assert_eq!(scheduler.readiness_oneshots.len(), 0);

    assert_eq!(report(&mut scheduler, "plain", true), None);
}

#[test]
fn each_spawner_hears_of_its_own_job() {
    let mut scheduler = JobScheduler::default();
    let mut first = scheduler.spawn_job(&Named("first", false), handle()).readiness;
    let mut second = scheduler.spawn_job(&Named("second", false), handle()).readiness;
    assert_eq!(report(&mut scheduler, "second", true), Some(true));
    assert_eq!(first.try_recv(), Err(oneshot::error::TryRecvError::Empty));
    assert_eq!(second.try_recv(), Ok(()));
}

#[test]
fn announcement_without_receiver_is_told() {
    let mut scheduler = JobScheduler::default();
    drop(scheduler.spawn_job(&Plain, handle()).readiness);
    assert_eq!(report(&mut scheduler, "plain", true), Some(false));
    assert_eq!(status_word(&scheduler, "plain"), Some(name("Ready")));
}

#[test]
fn instance_that_ends_without_a_word_changes_nothing() {
    let mut scheduler = JobScheduler::default();
    let mut readiness = scheduler.spawn_job(&Plain, handle()).readiness;
    scheduler.change_status(&name("plain"), JobStatus::Startup);
    assert_eq!(report(&mut scheduler, "plain", false), None);
    assert_eq!(status_word(&scheduler, "plain"), Some(name("Startup")));
    assert_eq!(scheduler.readiness_oneshots.len(), 1);
    assert_eq!(readiness.try_recv(), Err(oneshot::error::TryRecvError::Empty));
}

#[test]
fn readiness_takes_the_termination_handle_where_it_is_reported() {
    let mut scheduler = JobScheduler::default();
    let (tx, rx) = watch::channel(None);
    let mut termination_handle = Some(TerminationHandle::new(tx));
    scheduler.report_readiness(&name("graceful"), false, &mut termination_handle);
    assert!(termination_handle.is_some());
    assert_eq!(scheduler.status.len(), 0);
    let report = scheduler.report_readiness(&name("graceful"), true, &mut termination_handle);
    assert!(report.announcement.is_none() && report.replaced.is_none());
    assert!(termination_handle.is_none());
    scheduler.signal_termination();
    assert_eq!(*rx.borrow(), Some(()));
    let report = scheduler.report_readiness(&name("graceful"), true, &mut termination_handle);
    assert!(report.replaced.unwrap().is_gracefully_terminatable());
}

#[test]
fn second_spawn_under_one_name_replaces_the_first() {
    let mut scheduler = JobScheduler::default();
    let mut first = scheduler.spawn_job(&Plain, handle()).readiness;
    let second = scheduler.spawn_job(&Plain, handle());
    assert_eq!(scheduler.termination_handles.len(), 1);
    assert!(second.replaced_aborter.is_some());
    assert_eq!(first.try_recv(), Err(oneshot::error::TryRecvError::Empty));
    drop(second.replaced_announcer);
    assert_eq!(first.try_recv(), Err(oneshot::error::TryRecvError::Closed));
    let mut readiness = second.readiness;
    assert_eq!(readiness.try_recv(), Err(oneshot::error::TryRecvError::Empty));
}

#[test]
fn dead_resource_aborts_the_task() {
    let handle = handle();
    let mut aborter = Aborter::new(handle.clone());
    JobScheduler::resource_changed(None, &mut aborter);
    assert!(!handle.is_aborted());
    JobScheduler::resource_changed(Some(ResourceStatus::Dead), &mut aborter);
    assert!(handle.is_aborted());
}

#[test]
fn finished_job_is_taken_off_the_list() {
    let mut scheduler = JobScheduler::default();
    let _readiness = scheduler.spawn_job(&Plain, handle());
    scheduler.record_exit(&name("plain"), LifecycleExit::Finished);
    assert_eq!(status_word(&scheduler, "plain"), None);
    scheduler.release_job(&name("plain"), LifecycleExit::Finished);
    assert_eq!(scheduler.status.len(), 0);
    assert_eq!(scheduler.termination_handles.len(), 0);
}

#[test]
fn aborted_job_is_terminated_and_taken_off_the_list() {
    let mut scheduler = JobScheduler::default();
    let _readiness = scheduler.spawn_job(&Plain, handle());
    scheduler.change_status(&name("plain"), JobStatus::Startup);
    scheduler.change_status(&name("other"), JobStatus::Startup);
    let replaced = scheduler.record_exit(&name("plain"), LifecycleExit::Aborted);
    assert!(replaced == Some(JobStatus::Startup));
    assert_eq!(status_word(&scheduler, "plain"), Some(name("Terminated")));
    assert_eq!(scheduler.termination_handles.len(), 1);
    let released = scheduler.release_job(&name("plain"), LifecycleExit::Aborted);
    assert!(released.aborter.is_some() && released.status == Some(JobStatus::Terminated));
    assert_eq!(status_word(&scheduler, "plain"), None);
    assert_eq!(status_word(&scheduler, "other"), Some(name("Startup")));
    assert_eq!(scheduler.termination_handles.len(), 0);
}

#[test]
fn given_up_job_stays_on_the_list() {
    let mut scheduler = JobScheduler::default();
    let _readiness = scheduler.spawn_job(&Plain, handle());
    scheduler.change_status(&name("plain"), JobStatus::Terminated);
    scheduler.record_exit(&name("plain"), LifecycleExit::RetriesExhausted);
    scheduler.release_job(&name("plain"), LifecycleExit::RetriesExhausted);
    assert_eq!(status_word(&scheduler, "plain"), Some(name("Terminated")));
    assert_eq!(scheduler.termination_handles.len(), 0);
}

#[test]
fn termination_asks_graceful_jobs_and_aborts_the_others() {
    let mut scheduler = JobScheduler::default();
    let (graceful, forceful, starting) = (handle(), handle(), handle());
    let _a = scheduler.spawn_job(&Named("graceful", true), graceful.clone());
    let _b = scheduler.spawn_job(&Named("forceful", false), forceful.clone());
    let _c = scheduler.spawn_job(&Named("starting", true), starting.clone());
    let (tx, rx) = watch::channel(None);
    scheduler.change_status(&name("graceful"), ready_with(tx));
    scheduler.change_status(&name("forceful"), JobStatus::Ready(None));
    scheduler.change_status(&name("starting"), JobStatus::Startup);

    assert!(matches!(scheduler.terminate_jobs(0), TerminationRound::Wait(10)));
    assert_eq!(*rx.borrow(), Some(()));
    assert!(!graceful.is_aborted());
    assert!(forceful.is_aborted());
    assert!(starting.is_aborted());
    assert_eq!(scheduler.status.len(), 3);
    assert_eq!(scheduler.termination_handles.len(), 3);
}

#[test]
fn later_rounds_give_no_signals_while_they_wait() {
    let mut scheduler = JobScheduler::default();
    let (graceful, other) = (handle(), handle());
    let _a = scheduler.spawn_job(&Named("graceful", true), graceful.clone());
    let _b = scheduler.spawn_job(&Named("other", false), other.clone());
    let (tx, rx) = watch::channel(None);
    scheduler.change_status(&name("graceful"), ready_with(tx));
    scheduler.change_status(&name("other"), JobStatus::Startup);
    let round = scheduler.terminate_jobs(TERMINATION_ROUNDS - 1);
    assert!(matches!(round, TerminationRound::Wait(10)));
    assert_eq!(*rx.borrow(), None);
    assert!(!graceful.is_aborted());
    assert!(!other.is_aborted());
}

#[test]
fn grace_period_ends_with_the_kill() {
    let mut scheduler = JobScheduler::default();
    let graceful = handle();
    let _a = scheduler.spawn_job(&Graceful, graceful.clone());
    let (tx, _rx) = watch::channel(None);
    scheduler.change_status(&name("graceful"), ready_with(tx));
    match scheduler.terminate_jobs(TERMINATION_ROUNDS) {
        TerminationRound::Complete(killed) => assert_eq!(killed, vec![name("graceful")]),
        TerminationRound::Wait(_) => panic!("the grace period is over"),
    }
    assert!(graceful.is_aborted());
}

#[test]
fn crashed_job_does_not_hold_up_the_termination() {
    let mut scheduler = JobScheduler::default();
    let crashed = handle();
    let _a = scheduler.spawn_job(&Graceful, crashed.clone());
    scheduler.change_status(&name("graceful"), JobStatus::CrashLoopBackOff);
    assert!(!scheduler.awaits_graceful_exit());
    assert!(matches!(scheduler.terminate_jobs(1), TerminationRound::Complete(_)));
    assert!(crashed.is_aborted());
}

#[test]
fn released_job_does_not_hold_up_the_termination() {
    let mut scheduler = JobScheduler::default();
    let (tx, _rx) = watch::channel(None);
    scheduler.change_status(&name("ready"), ready_with(tx));
    assert!(!scheduler.awaits_graceful_exit());
    match scheduler.terminate_jobs(0) {
        TerminationRound::Complete(killed) => assert!(killed.is_empty()),
        TerminationRound::Wait(_) => panic!("nothing is left to wait for"),
    }
}

#[test]
fn job_that_is_not_listed_is_killed_in_the_end() {
    let mut scheduler = JobScheduler::default();
    let unlisted = handle();
    let _a = scheduler.spawn_job(&Plain, unlisted.clone());
    scheduler.signal_termination();
    assert!(!unlisted.is_aborted());
    assert_eq!(scheduler.kill_remaining(), vec![name("plain")]);
    assert!(unlisted.is_aborted());
}

#[test]
fn asking_a_job_without_receiver_is_no_failure() {
    let mut scheduler = JobScheduler::default();
    let (tx, rx) = watch::channel(None);
    drop(rx);
    scheduler.change_status(&name("gone"), ready_with(tx));
    scheduler.signal_termination();
    assert_eq!(status_word(&scheduler, "gone"), Some(name("Ready")));
}

#[test]
fn waiting_ends_when_all_listed_jobs_are_ready() {
    let mut scheduler = JobScheduler::default();
    assert!(scheduler.are_all_ready());
    scheduler.change_status(&name("a"), JobStatus::Ready(None));
    scheduler.change_status(&name("b"), JobStatus::Startup);
    assert!(!scheduler.are_all_ready());
    let (tx, _rx) = watch::channel(None);
    scheduler.change_status(&name("b"), ready_with(tx));
    assert!(scheduler.are_all_ready());
    scheduler.change_status(&name("c"), JobStatus::Finished);
    assert!(!scheduler.are_all_ready());
}

#[test]
fn empty_scheduler_is_looked_at_once_with_one_pause() {
    let scheduler = JobScheduler::default();
    assert_eq!(scheduler.wait_for_ready(false), ReadinessRound::Pause(100, true));
    assert_eq!(scheduler.wait_for_ready(true), ReadinessRound::Complete);
}

#[test]
fn waiting_pauses_after_each_look() {
    let mut scheduler = JobScheduler::default();
    scheduler.change_status(&name("a"), JobStatus::Startup);
    let mut pauses = Vec::new();
    let mut found_ready = false;
    while let ReadinessRound::Pause(millis, ready) = scheduler.wait_for_ready(found_ready) {
        pauses.push(millis);
        found_ready = ready;
        if pauses.len() == 3 {
            scheduler.change_status(&name("a"), JobStatus::Ready(None));
        }
    }
    assert_eq!(pauses, vec![100, 100, 100, 100]);
}

#[test]
fn spawned_job_is_waited_for_before_it_is_listed() {
    let mut scheduler = JobScheduler::default();
    let _a = scheduler.spawn_job(&Plain, handle());
    assert_eq!(scheduler.wait_for_ready(false), ReadinessRound::Pause(100, false));
    let (lifecycle, _) = scheduler.start_job_lifecycle(&Plain);
    assert_eq!(scheduler.wait_for_ready(false), ReadinessRound::Pause(100, false));
    report(&mut scheduler, &lifecycle.job_name, true);
    assert_eq!(scheduler.wait_for_ready(false), ReadinessRound::Pause(100, true));
    scheduler.release_job(&lifecycle.job_name, LifecycleExit::Finished);
    assert_eq!(scheduler.wait_for_ready(false), ReadinessRound::Pause(100, true));
}

#[test]
fn every_live_job_gets_its_signal() {
    let mut scheduler = JobScheduler::default();
    let live = handle();
    let _a = scheduler.spawn_job(&Named("live", false), live.clone());
    scheduler.change_status(&name("live"), JobStatus::Restarting);
    scheduler.change_status(&name("given up"), JobStatus::Terminated);
    scheduler.signal_termination();
    assert!(live.is_aborted());
}

#[test]
fn cancelled_task_is_aborted() {
    let runtime = tokio::runtime::Builder::new_current_thread().build().unwrap();
    let (task, abort_handle) = futures::future::abortable(futures::future::pending::<u8>());
    let mut task = AbortableJoinHandle {
        join_handle: runtime.spawn(task),
        abort_handle: Aborter::new(abort_handle.clone()),
    };
    assert!(!task.is_finished());
    task.cancel();
    assert!(abort_handle.is_aborted());
    assert!(runtime.block_on(task.join_handle).unwrap().is_err());
}

#[test]
fn no_job_is_signalled_twice() {
    let mut scheduler = JobScheduler::default();
    let graceful = handle();
    let _a = scheduler.spawn_job(&Graceful, graceful.clone());
    let (tx, mut rx) = watch::channel(None);
    scheduler.change_status(&name("graceful"), ready_with(tx));
    scheduler.signal_termination();
    assert!(rx.has_changed().unwrap());
    assert_eq!(*rx.borrow_and_update(), Some(()));
    assert!(!rx.has_changed().unwrap());
    assert!(!graceful.is_aborted());
}
