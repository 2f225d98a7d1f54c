use futures::future::AbortHandle;
use jatsl::job::Job;
use jatsl::registry::Registry;
use jatsl::signals::{Aborter, TerminationHandle};
use jatsl::status::JobStatus;
use jatsl::status_server::{State, Status, StatusServer};
use jatsl::task_ids::TaskIds;
use tokio::sync::watch;

fn name(text: &str) -> String {
    text.to_string()
}

fn report(jobs: Vec<(&str, JobStatus)>, state: State) -> (u16, Status) {
    let mut registry = Registry::new();
    for (job_name, status) in jobs {
        registry.insert(name(job_name), status);
    }
    let reply = StatusServer::generate_report(&registry, state);
    assert_eq!(reply.response.jobs.len(), registry.len());
    assert_eq!(reply.content_type, "application/json");
    assert_eq!(reply.response.state, state);
    (reply.code, reply.response.status)
}

#[test]
fn statuses_are_shown_as_words() {
    let (tx, _rx) = watch::channel(None);
    assert_eq!(JobStatus::Ready(None).to_string(), "Ready");
    assert_eq!(JobStatus::Ready(Some(TerminationHandle::new(tx))).to_string(), "Ready");
    assert_eq!(JobStatus::Startup.to_string(), "Startup");
    assert_eq!(JobStatus::Restarting.to_string(), "Restarting");
    assert_eq!(JobStatus::CrashLoopBackOff.to_string(), "CrashLoopBackOff");
    assert_eq!(JobStatus::Terminated.to_string(), "Terminated");
    assert_eq!(JobStatus::Finished.to_string(), "Finished");
}

#[test]
fn statuses_are_equal_whatever_the_handle() {
    let (tx, _rx) = watch::channel(None);
    assert!(JobStatus::Ready(Some(TerminationHandle::new(tx))) == JobStatus::Ready(None));
    assert!(JobStatus::Startup == JobStatus::Startup);
    assert!(JobStatus::Restarting == JobStatus::Restarting);
    assert!(JobStatus::CrashLoopBackOff == JobStatus::CrashLoopBackOff);
    assert!(JobStatus::Terminated == JobStatus::Terminated);
    assert!(JobStatus::Startup != JobStatus::Restarting);
    assert!(JobStatus::Ready(None) != JobStatus::Finished);
    assert!(JobStatus::Finished != JobStatus::Terminated);
}

#[test]
fn finished_jobs_compare_unequal() {
    assert!(JobStatus::Finished != JobStatus::Finished);
}

#[test]
fn only_ready_jobs_with_a_handle_can_be_asked() {
    let (tx, _rx) = watch::channel(None);
    assert!(JobStatus::Ready(Some(TerminationHandle::new(tx))).is_gracefully_terminatable());
    assert!(!JobStatus::Ready(None).is_gracefully_terminatable());
    assert!(!JobStatus::Startup.is_gracefully_terminatable());
    assert!(!JobStatus::Finished.is_gracefully_terminatable());
}

#[test]
fn health_codes() {
    assert_eq!(Status::Operational.status_code(), 200);
    assert_eq!(Status::Degraded.status_code(), 503);
    assert_eq!(Status::Unrecoverable.status_code(), 410);
}

#[test]
fn application_without_jobs_is_operational() {
    assert_eq!(report(vec![], State::Running), (200, Status::Operational));
}

#[test]
fn ready_and_finished_jobs_are_healthy() {
    let jobs = vec![("a", JobStatus::Ready(None)), ("b", JobStatus::Finished)];
    assert_eq!(report(jobs, State::Running), (200, Status::Operational));
}

#[test]
fn unready_jobs_degrade_the_application() {
    for unready in [JobStatus::Restarting, JobStatus::CrashLoopBackOff, JobStatus::Startup] {
        let jobs = vec![("a", JobStatus::Ready(None)), ("b", unready)];
        assert_eq!(report(jobs, State::Running), (503, Status::Degraded));
    }
}

#[test]
fn terminated_job_outweighs_the_others_in_any_order() {
    let jobs = vec![("a", JobStatus::Terminated), ("b", JobStatus::Startup)];
    assert_eq!(report(jobs, State::Running), (410, Status::Unrecoverable));
    let jobs = vec![("a", JobStatus::Startup), ("b", JobStatus::Terminated)];
    assert_eq!(report(jobs, State::Running), (410, Status::Unrecoverable));
}

#[test]
fn state_other_than_running_degrades_whatever_the_jobs_do() {
    for state in [State::Startup, State::Shutdown] {
        assert_eq!(report(vec![("a", JobStatus::Ready(None))], state), (503, Status::Degraded));
        assert_eq!(report(vec![("a", JobStatus::Terminated)], state), (503, Status::Degraded));
    }
}

#[test]
fn report_shows_every_job() {
    let mut registry = Registry::new();
    registry.insert(name("a"), JobStatus::Ready(None));
    registry.insert(name("b"), JobStatus::CrashLoopBackOff);
    let jobs = StatusServer::generate_report(&registry, State::Running).response.jobs;
    assert_eq!(jobs.len(), 2);
    assert_eq!(jobs.get(&name("a")), Some(&name("Ready")));
    assert_eq!(jobs.get(&name("b")), Some(&name("CrashLoopBackOff")));
}

#[test]
fn status_server_starts_up_on_its_port() {
    let (state, server) = StatusServer::new(8080);
    assert_eq!(state, State::Startup);
    assert_eq!(server.listen_address(), ([0, 0, 0, 0], 8080));
}

#[test]
fn status_server_is_a_graceful_job() {
    let (_, server) = StatusServer::new(8080);
    assert_eq!(server.name(), "jatsl::status_server");
    assert!(server.supports_graceful_termination());
}

#[test]
fn jobs_are_not_graceful_unless_they_say_so() {
    struct Plain;
    impl Job for Plain {
        const NAME: &'static str = "plain";
    }
    assert_eq!(Plain.name(), "plain");
    assert_eq!(Plain.name(), Plain::NAME);
    assert!(!Plain.supports_graceful_termination());
}

#[test]
fn registry_keeps_one_value_for_each_name() {
    let mut registry = Registry::new();
    assert_eq!(registry.insert(name("a"), 1), None);
    assert_eq!(registry.insert(name("b"), 2), None);
    assert_eq!(registry.insert(name("a"), 3), Some(1));
    assert_eq!(registry.len(), 2);
    assert_eq!(registry.get(&name("a")), Some(&3));
    assert_eq!((registry.name_at(0), registry.value_at(0)), (&name("a"), &3));
    assert_eq!((registry.name_at(1), registry.value_at(1)), (&name("b"), &2));
    assert_eq!(registry.remove(&name("a")), Some(3));
    assert_eq!(registry.remove(&name("a")), None);
    assert_eq!(registry.get(&name("a")), None);
    assert_eq!(registry.name_at(0), &name("b"));
    *registry.value_mut(0) = 5;
    assert_eq!(registry.get(&name("b")), Some(&5));
}

#[test]
fn task_ids_count_up_and_wrap_around() {
    let mut ids = TaskIds::new();
    assert_eq!((ids.issue(), ids.issue(), ids.issue()), (0, 1, 2));
    let mut last = TaskIds { next: usize::MAX };
    assert_eq!((last.issue(), last.issue()), (usize::MAX, 0));
}

#[test]
fn only_a_job_that_can_be_asked_is_asked() {
    let (tx, rx) = watch::channel(None);
    let mut ready = JobStatus::Ready(Some(TerminationHandle::new(tx)));
    ready.ask_to_terminate();
    assert_eq!(*rx.borrow(), Some(()));
    assert!(ready.is_gracefully_terminatable());
    let mut starting = JobStatus::Startup;
    starting.ask_to_terminate();
    assert!(starting == JobStatus::Startup);
}

#[test]
fn abort_handles_can_be_filed() {
    let mut registry = Registry::new();
    let (handle, _registration) = AbortHandle::new_pair();
    assert!(registry.insert(name("a"), Aborter::new(handle.clone())).is_none());
    assert!(!handle.is_aborted());
}
