use jatsl::job::Job;
use jatsl::lifecycle::{
    JobLifecycle, LifecycleAction, LifecycleEvent, LifecycleExit, LifecyclePhase,
};
use jatsl::scheduler::JobScheduler;
use jatsl::status_server::{State, StatusServer};
use std::time::Duration;

struct Plain;

impl Job for Plain {
    const NAME: &'static str = "plain";
}

fn shown(scheduler: &JobScheduler) -> Option<String> {
    scheduler.status.get(&"plain".to_string()).map(|status| status.to_string())
}

fn step(
    scheduler: &mut JobScheduler,
    lifecycle: &mut JobLifecycle,
    event: LifecycleEvent,
) -> LifecycleAction {
    assert!(lifecycle.expects(&event));
    scheduler.manage_job_lifecycle(lifecycle, event).action
}

fn start(scheduler: &mut JobScheduler) -> JobLifecycle {
    let (lifecycle, progress) = scheduler.start_job_lifecycle(&Plain);
    assert!(matches!(progress.action, LifecycleAction::RunInstance));
    lifecycle
}

fn report(scheduler: &mut JobScheduler, job_name: &String) {
    scheduler.report_readiness(job_name, true, &mut None);
}

#[test]
fn job_starts_up_first() {
    let mut scheduler = JobScheduler::default();
    let lifecycle = start(&mut scheduler);
    assert_eq!(lifecycle.job_name, "plain");
    assert_eq!(lifecycle.phase, LifecyclePhase::Running);
    assert_eq!(shown(&scheduler), Some("Startup".to_string()));
}

#[test]
fn job_that_completes_finishes_and_vanishes() {
    let mut scheduler = JobScheduler::default();
    let mut lifecycle = start(&mut scheduler);
    let action = step(&mut scheduler, &mut lifecycle, LifecycleEvent::Completed);
    assert!(matches!(action, LifecycleAction::Proceed));
    assert_eq!(shown(&scheduler), Some("Finished".to_string()));
    let action = step(&mut scheduler, &mut lifecycle, LifecycleEvent::Proceed);
    assert!(matches!(action, LifecycleAction::Exit(LifecycleExit::Finished)));
    assert_eq!(shown(&scheduler), None);
    assert_eq!(lifecycle.phase, LifecyclePhase::Ended(LifecycleExit::Finished));
}

#[test]
fn crashed_job_waits_and_is_retried() {
    let mut scheduler = JobScheduler::default();
    let mut lifecycle = start(&mut scheduler);
    let action = step(&mut scheduler, &mut lifecycle, LifecycleEvent::Failed);
    assert!(matches!(action, LifecycleAction::AskBackoff));
    assert_eq!(shown(&scheduler), Some("CrashLoopBackOff".to_string()));
    let delay = Duration::from_millis(250);
    match step(&mut scheduler, &mut lifecycle, LifecycleEvent::Backoff(Some(delay))) {
        LifecycleAction::Sleep(given) => assert_eq!(given, delay),
        _ => panic!("the job has to wait"),
    }
    assert_eq!(shown(&scheduler), Some("CrashLoopBackOff".to_string()));
    let action = step(&mut scheduler, &mut lifecycle, LifecycleEvent::Proceed);
    assert!(matches!(action, LifecycleAction::RunInstance));
    assert_eq!(shown(&scheduler), Some("Restarting".to_string()));
    assert_eq!(lifecycle.phase, LifecyclePhase::Running);
}

#[test]
fn job_without_retries_is_given_up_for_good() {
    let mut scheduler = JobScheduler::default();
    let mut lifecycle = start(&mut scheduler);
    step(&mut scheduler, &mut lifecycle, LifecycleEvent::Failed);
    let action = step(&mut scheduler, &mut lifecycle, LifecycleEvent::Backoff(None));
    assert!(matches!(action, LifecycleAction::Exit(LifecycleExit::RetriesExhausted)));
    scheduler.record_exit(&lifecycle.job_name, LifecycleExit::RetriesExhausted);
    scheduler.release_job(&lifecycle.job_name, LifecycleExit::RetriesExhausted);
    assert_eq!(shown(&scheduler), Some("Terminated".to_string()));
    let reply = StatusServer::generate_report(&scheduler.status, State::Running);
    assert_eq!(reply.code, 410);
}

#[test]
fn job_that_loses_a_resource_is_restarted_at_once() {
    let mut scheduler = JobScheduler::default();
    let mut lifecycle = start(&mut scheduler);
    let action = step(&mut scheduler, &mut lifecycle, LifecycleEvent::ResourceLost);
    assert!(matches!(action, LifecycleAction::RunInstance));
    assert_eq!(shown(&scheduler), Some("Restarting".to_string()));
    assert_eq!(lifecycle.phase, LifecyclePhase::Running);
}

#[test]
fn status_follows_the_lifecycle() {
    let mut scheduler = JobScheduler::default();
    let mut lifecycle = start(&mut scheduler);
    report(&mut scheduler, &lifecycle.job_name);
    assert_eq!(shown(&scheduler), Some("Ready".to_string()));
    step(&mut scheduler, &mut lifecycle, LifecycleEvent::ResourceLost);
    report(&mut scheduler, &lifecycle.job_name);
    assert_eq!(shown(&scheduler), Some("Ready".to_string()));
    step(&mut scheduler, &mut lifecycle, LifecycleEvent::Failed);
    assert_eq!(shown(&scheduler), Some("CrashLoopBackOff".to_string()));
    step(&mut scheduler, &mut lifecycle, LifecycleEvent::Backoff(Some(Duration::ZERO)));
    step(&mut scheduler, &mut lifecycle, LifecycleEvent::Proceed);
    step(&mut scheduler, &mut lifecycle, LifecycleEvent::Completed);
    step(&mut scheduler, &mut lifecycle, LifecycleEvent::Proceed);
    assert_eq!(scheduler.status.len(), 0);
}

#[test]
fn first_start_shows_startup_and_restarts_do_not() {
    let mut scheduler = JobScheduler::default();
    let mut lifecycle = start(&mut scheduler);
    assert_eq!(shown(&scheduler), Some("Startup".to_string()));
    let events = vec![
        LifecycleEvent::ResourceLost,
        LifecycleEvent::Failed,
        LifecycleEvent::Backoff(Some(Duration::ZERO)),
        LifecycleEvent::Proceed,
        LifecycleEvent::ResourceLost,
        LifecycleEvent::Completed,
        LifecycleEvent::Proceed,
    ];
    for event in events {
        step(&mut scheduler, &mut lifecycle, event);
        assert_ne!(shown(&scheduler), Some("Startup".to_string()));
    }
}

#[test]
fn crash_loop_uses_every_delay_in_order() {
    let delays: Vec<Duration> = vec![1, 5, 3].into_iter().map(Duration::from_millis).collect();
    let mut backoff = delays.iter();
    let mut scheduler = JobScheduler::default();
    let (mut lifecycle, progress) = scheduler.start_job_lifecycle(&Plain);
    let mut action = progress.action;
    let mut instances = 0;
    let mut slept = Vec::new();
    let exit = loop {
        let event = match action {
            LifecycleAction::RunInstance => {
                instances += 1;
                LifecycleEvent::Failed
            }
            LifecycleAction::AskBackoff => LifecycleEvent::Backoff(backoff.next().copied()),
            LifecycleAction::Sleep(delay) => {
                slept.push(delay);
                LifecycleEvent::Proceed
            }
            LifecycleAction::Proceed => LifecycleEvent::Proceed,
            LifecycleAction::Exit(exit) => break exit,
        };
        action = step(&mut scheduler, &mut lifecycle, event);
    };
    assert_eq!(exit, LifecycleExit::RetriesExhausted);
    assert_eq!(instances, 4);
    assert_eq!(slept, delays);
    assert_eq!(shown(&scheduler), Some("Terminated".to_string()));
}

#[test]
fn steps_hand_the_former_status_back() {
    let mut scheduler = JobScheduler::default();
    let (mut lifecycle, progress) = scheduler.start_job_lifecycle(&Plain);
    assert!(progress.replaced.is_none());
    let mut replaced = Vec::new();
    for event in vec![
        LifecycleEvent::Failed,
        LifecycleEvent::Backoff(Some(Duration::ZERO)),
        LifecycleEvent::Proceed,
        LifecycleEvent::Completed,
        LifecycleEvent::Proceed,
    ] {
        let progress = scheduler.manage_job_lifecycle(&mut lifecycle, event);
        replaced.push(progress.replaced.map(|status| status.to_string()));
    }
    let expected = vec![
        Some("Startup".to_string()),
        None,
        Some("CrashLoopBackOff".to_string()),
        Some("Restarting".to_string()),
        Some("Finished".to_string()),
    ];
    assert_eq!(replaced, expected);
}

#[test]
fn phases_expect_their_events_only() {
    let events = || {
        vec![
            LifecycleEvent::Completed,
            LifecycleEvent::Failed,
            LifecycleEvent::ResourceLost,
            LifecycleEvent::Backoff(None),
            LifecycleEvent::Proceed,
        ]
    };
    let expected = |phase: LifecyclePhase| -> Vec<bool> {
        let lifecycle = JobLifecycle { job_name: "plain".to_string(), phase };
        events().iter().map(|event| lifecycle.expects(event)).collect()
    };
    assert_eq!(expected(LifecyclePhase::Running), vec![true, true, true, false, false]);
    assert_eq!(expected(LifecyclePhase::Retiring), vec![false, false, false, false, true]);
    assert_eq!(expected(LifecyclePhase::Crashed), vec![false, false, false, true, false]);
    assert_eq!(expected(LifecyclePhase::BackingOff), vec![false, false, false, false, true]);
    assert_eq!(
        expected(LifecyclePhase::Ended(LifecycleExit::Finished)),
        vec![false, false, false, false, false]
    );
}

#[test]
fn results_become_events() {
    let completed: Result<Result<(), u8>, u16> = Ok(Ok(()));
    let failed: Result<Result<(), u8>, u16> = Ok(Err(1));
    let aborted: Result<Result<(), u8>, u16> = Err(2);
    assert!(matches!(LifecycleEvent::of_instance(&completed), LifecycleEvent::Completed));
    assert!(matches!(LifecycleEvent::of_instance(&failed), LifecycleEvent::Failed));
    assert!(matches!(LifecycleEvent::of_instance(&aborted), LifecycleEvent::ResourceLost));
}

#[test]
fn results_become_exits() {
    let finished: Result<LifecycleExit, u8> = Ok(LifecycleExit::Finished);
    let given_up: Result<LifecycleExit, u8> = Ok(LifecycleExit::RetriesExhausted);
    let aborted: Result<LifecycleExit, u8> = Err(1);
    assert_eq!(LifecycleExit::of_lifecycle(finished), LifecycleExit::Finished);
    assert_eq!(LifecycleExit::of_lifecycle(given_up), LifecycleExit::RetriesExhausted);
    assert_eq!(LifecycleExit::of_lifecycle(aborted), LifecycleExit::Aborted);
}
