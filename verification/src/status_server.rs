//! The health report over all jobs.

use crate::job::Job;
use crate::registry;
use crate::registry::Registry;
use crate::status::JobStatus;
use vstd::prelude::*;

verus! {

/// Health of the observed application
#[derive(Clone, Copy, Debug, PartialEq, Eq, Structural)]
pub enum Status {
    Operational,
    Degraded,
    Unrecoverable,
}

/// State of the observed application
///
/// Can be used to manually change the ready-state even though all jobs are healthy.
#[derive(Clone, Copy, Debug, PartialEq, Eq, Structural)]
pub enum State {
    Startup,
    Running,
    Shutdown,
}

/// The body of a report.
pub struct StatusResponse {
    pub status: Status,
    pub state: State,
    /// The word by which each job's status is shown.
    pub jobs: Registry<String>,
}

/// A report with what HTTP has to say of it.
pub struct Reply {
    pub code: u16,
    pub content_type: &'static str,
    pub response: StatusResponse,
}

/// HTTP healthcheck server
///
/// Makes the job status list available as an HTTP endpoint. Commonly used for Kubernetes or
/// Docker health probes.
/// Note that the server does not automatically schedule itself so you have to start it as a job
/// on a scheduler yourself!
#[derive(Clone, Copy, Debug, PartialEq, Eq, Structural)]
pub struct StatusServer {
    pub port: u16,
}

/// Reads `hyper::StatusCode::OK`, whose number is 200.
#[verifier::external_body]
fn ok_code() -> (code: u16)
    ensures
        code == 200,
{
    hyper::StatusCode::OK.as_u16()
}

/// Reads `hyper::StatusCode::SERVICE_UNAVAILABLE`, whose number is 503.
#[verifier::external_body]
fn service_unavailable_code() -> (code: u16)
    ensures
        code == 503,
{
    hyper::StatusCode::SERVICE_UNAVAILABLE.as_u16()
}

/// Reads `hyper::StatusCode::GONE`, whose number is 410.
#[verifier::external_body]
fn gone_code() -> (code: u16)
    ensures
        code == 410,
{
    hyper::StatusCode::GONE.as_u16()
}

impl JobStatus {
    /// The job is on its way to be ready.
    pub open spec fn is_unready(self) -> bool {
        self is Restarting || self is CrashLoopBackOff || self is Startup
    }
}

/// Some listed job has exceeded its crash loop limit.
pub open spec fn some_terminated(jobs: Map<Seq<char>, JobStatus>) -> bool {
    exists|job_name: Seq<char>| #[trigger]
        jobs.contains_key(job_name) && jobs[job_name] is Terminated
}

/// Some listed job is on its way to be ready.
pub open spec fn some_unready(jobs: Map<Seq<char>, JobStatus>) -> bool {
    exists|job_name: Seq<char>| #[trigger]
        jobs.contains_key(job_name) && jobs[job_name].is_unready()
}

/// The health of the jobs alone.
pub open spec fn health_of_jobs(jobs: Map<Seq<char>, JobStatus>) -> Status {
    if some_terminated(jobs) {
        Status::Unrecoverable
    } else if some_unready(jobs) {
        Status::Degraded
    } else {
        Status::Operational
    }
}

/// The health of the application: that of its jobs, but degraded while it is not running.
pub open spec fn health(jobs: Map<Seq<char>, JobStatus>, state: State) -> Status {
    if state is Running {
        health_of_jobs(jobs)
    } else {
        Status::Degraded
    }
}

/// `shown` holds the word for each listed job's status, and nothing else.
pub open spec fn shows(
    shown: Map<Seq<char>, String>,
    jobs: Map<Seq<char>, JobStatus>,
) -> bool {
    &&& forall|job_name: Seq<char>| #[trigger]
        shown.contains_key(job_name) <==> jobs.contains_key(job_name)
    &&& forall|job_name: Seq<char>| #[trigger]
        jobs.contains_key(job_name) ==> shown[job_name]@ == jobs[job_name].label()
}

impl Status {
    /// The number of the HTTP status by which the health is reported.
    pub open spec fn code(self) -> u16 {
        match self {
            Status::Operational => 200,
            Status::Degraded => 503,
            Status::Unrecoverable => 410,
        }
    }

    /// The number of the HTTP status by which the health is reported.
    pub fn status_code(&self) -> (code: u16)
        ensures
            code == self.code(),
    {
        match *self {
            Status::Operational => ok_code(),
            Status::Degraded => service_unavailable_code(),
            Status::Unrecoverable => gone_code(),
        }
    }
}

impl StatusServer {
    /// Creates a new server for the given port configuration, and the state in which the
    /// application is at first.
    pub fn new(port: u16) -> (created: (State, Self))
        ensures
            created.0 == State::Startup,
            created.1.port == port,
    {
        (State::Startup, StatusServer { port })
    }

    /// The address and port at which the server listens: all addresses of the machine.
    pub fn listen_address(&self) -> (address: ([u8; 4], u16))
        ensures
            address.0@ == seq![0u8, 0u8, 0u8, 0u8],
            address.1 == self.port,
    {
        let any: [u8; 4] = [0, 0, 0, 0];
        assert(any@ =~= seq![0u8, 0u8, 0u8, 0u8]);
        (any, self.port)
    }

    /// Reports on all jobs and on the application.
    pub fn generate_report(status_map: &Registry<JobStatus>, state: State) -> (reply: Reply)
        ensures
            reply.response.status == health(status_map@, state),
            reply.response.state == state,
            shows(reply.response.jobs@, status_map@),
            reply.code == reply.response.status.code(),
            reply.content_type@ == "application/json"@,
    {
        let ghost listed = status_map.entries();
        proof {
            use_type_invariant(status_map);
            status_map.lemma_names_are_distinct();
        }
        let mut status = Status::Operational;
        let mut jobs: Registry<String> = Registry::new();
        let mut index: usize = 0;
        while index < status_map.len()
            invariant
                index <= listed.len(),
                listed == status_map.entries(),
                registry::distinct_keys(listed),
                status == (if exists|i: int|
                    0 <= i < index && (#[trigger] listed[i]).1 is Terminated {
                    Status::Unrecoverable
                } else if exists|i: int|
                    0 <= i < index && (#[trigger] listed[i]).1.is_unready() {
                    Status::Degraded
                } else {
                    Status::Operational
                }),
                forall|i: int|
                    0 <= i < index ==> jobs@.contains_key((#[trigger] listed[i]).0)
                        && jobs@[listed[i].0]@ == listed[i].1.label(),
                forall|job_name: Seq<char>| #[trigger]
                    jobs@.contains_key(job_name) ==> exists|i: int|
                        0 <= i < index && (#[trigger] listed[i]).0 == job_name,
            decreases listed.len() - index,
        {
            let job_name = status_map.name_at(index);
            let job_status = status_map.value_at(index);
            match job_status {
                JobStatus::Terminated => {
                    status = Status::Unrecoverable;
                },
                JobStatus::Restarting | JobStatus::CrashLoopBackOff | JobStatus::Startup => {
                    if status != Status::Unrecoverable {
                        status = Status::Degraded;
                    }
                },
                _ => {},
            }
            jobs.insert(job_name.clone(), job_status.to_string());
            assert(listed[index as int].1 == *job_status);
            index = index + 1;
        }
        proof {
            assert forall|i: int| 0 <= i < listed.len() implies status_map@.contains_key(
                (#[trigger] listed[i]).0,
            ) && status_map@[listed[i].0] == listed[i].1 by {
                registry::lemma_place_is_unique(listed, i);
            }
            assert(status == health_of_jobs(status_map@));
        }
        if state != State::Running {
            status = Status::Degraded;
        }
        let code = status.status_code();
        Reply {
            code,
            content_type: "application/json",
            response: StatusResponse { status, state, jobs },
        }
    }
}

impl Job for StatusServer {
    const NAME: &'static str = "jatsl::status_server";

    const SUPPORTS_GRACEFUL_TERMINATION: bool = true;

    fn name(&self) -> (name: String)
        ensures
            name@ == Self::NAME@,
            name@ == "jatsl::status_server"@,
    {
        Self::NAME.to_owned()
    }

    fn supports_graceful_termination(&self) -> (supported: bool)
        ensures
            supported == Self::SUPPORTS_GRACEFUL_TERMINATION,
            supported,
    {
        Self::SUPPORTS_GRACEFUL_TERMINATION
    }
}

/// While the application is not running, it is reported as unavailable, whatever its jobs do.
pub proof fn law_state_overrides_jobs(jobs: Map<Seq<char>, JobStatus>, state: State)
    requires
        !(state is Running),
    ensures
        health(jobs, state) == Status::Degraded,
        health(jobs, state).code() == 503,
{
}

/// A running application is reported as healthy exactly where every listed job is ready or has
/// finished.
pub proof fn law_healthy_iff_all_jobs_are(jobs: Map<Seq<char>, JobStatus>)
    ensures
        health(jobs, State::Running).code() == 200 <==> (forall|job_name: Seq<char>| #[trigger]
            jobs.contains_key(job_name) ==> jobs[job_name] is Ready || jobs[job_name] is Finished),
{
}

/// One job that has exceeded its crash loop limit makes a running application unrecoverable,
/// whatever the other jobs do, and nothing else does.
pub proof fn law_unrecoverable_iff_some_job_is_terminated(jobs: Map<Seq<char>, JobStatus>)
    ensures
        health(jobs, State::Running).code() == 410 <==> (exists|job_name: Seq<char>| #[trigger]
            jobs.contains_key(job_name) && jobs[job_name] is Terminated),
{
}

/// The report holds each listed job under its name and no other, and what it holds is the text
/// that the job's status is shown by.
pub proof fn law_report_shows_each_job(
    status_map: &Registry<JobStatus>,
    state: State,
    reply: Reply,
    job_name: Seq<char>,
    text: String,
)
    requires
        call_ensures(StatusServer::generate_report, (status_map, state), reply),
        call_ensures(JobStatus::to_string, (&status_map@[job_name],), text),
    ensures
        reply.response.jobs@.contains_key(job_name) <==> status_map@.contains_key(job_name),
        status_map@.contains_key(job_name) ==> reply.response.jobs@[job_name]@ == text@,
{
}

/// The words of the report, status by status.
pub proof fn law_report_is_in_the_words_of_the_statuses(
    status_map: &Registry<JobStatus>,
    state: State,
    reply: Reply,
    job_name: Seq<char>,
)
    requires
        call_ensures(StatusServer::generate_report, (status_map, state), reply),
        status_map@.contains_key(job_name),
    ensures
        reply.response.jobs@.contains_key(job_name),
        reply.response.jobs@[job_name]@ == match status_map@[job_name] {
            JobStatus::Ready(_) => "Ready"@,
            JobStatus::Startup => "Startup"@,
            JobStatus::Restarting => "Restarting"@,
            JobStatus::CrashLoopBackOff => "CrashLoopBackOff"@,
            JobStatus::Terminated => "Terminated"@,
            JobStatus::Finished => "Finished"@,
        },
{
}

/// One listed job that has exceeded its crash loop limit makes a running application
/// unrecoverable, whatever the other jobs do.
pub proof fn law_terminated_job_is_reported(
    status_map: &Registry<JobStatus>,
    reply: Reply,
    job_name: Seq<char>,
)
    requires
        call_ensures(StatusServer::generate_report, (status_map, State::Running), reply),
        status_map@.contains_key(job_name),
        status_map@[job_name] is Terminated,
    ensures
        reply.code == 410,
        reply.response.status is Unrecoverable,
{
}

/// One listed job that is not ready yet degrades a running application of which no job has
/// exceeded its crash loop limit.
pub proof fn law_unready_job_is_reported(
    status_map: &Registry<JobStatus>,
    reply: Reply,
    job_name: Seq<char>,
)
    requires
        call_ensures(StatusServer::generate_report, (status_map, State::Running), reply),
        forall|other: Seq<char>| #[trigger]
            status_map@.contains_key(other) ==> !(status_map@[other] is Terminated),
        status_map@.contains_key(job_name),
        status_map@[job_name] is Startup || status_map@[job_name] is Restarting
            || status_map@[job_name] is CrashLoopBackOff,
    ensures
        reply.code == 503,
        reply.response.status is Degraded,
{
}

/// A running application of which every listed job is ready or has finished is operational.
pub proof fn law_healthy_jobs_are_reported(status_map: &Registry<JobStatus>, reply: Reply)
    requires
        call_ensures(StatusServer::generate_report, (status_map, State::Running), reply),
        forall|job_name: Seq<char>| #[trigger]
            status_map@.contains_key(job_name) ==> status_map@[job_name] is Ready
                || status_map@[job_name] is Finished,
    ensures
        reply.code == 200,
        reply.response.status is Operational,
{
}

/// An application that is not running is degraded, whatever its jobs do. In any state the report
/// tells that state and is JSON.
pub proof fn law_state_is_reported(
    status_map: &Registry<JobStatus>,
    state: State,
    reply: Reply,
)
    requires
        call_ensures(StatusServer::generate_report, (status_map, state), reply),
    ensures
        state is Startup || state is Shutdown ==> reply.code == 503
            && reply.response.status is Degraded,
        reply.response.state == state,
        reply.content_type@ == "application/json"@,
{
}

/// The code of a report is the one of its health: 200, 503 or 410, each for one health.
pub proof fn law_code_tells_health(
    status_map: &Registry<JobStatus>,
    state: State,
    reply: Reply,
    code: u16,
)
    requires
        call_ensures(StatusServer::generate_report, (status_map, state), reply),
        call_ensures(Status::status_code, (&reply.response.status,), code),
    ensures
        reply.code == code,
        code == 200 <==> reply.response.status is Operational,
        code == 503 <==> reply.response.status is Degraded,
        code == 410 <==> reply.response.status is Unrecoverable,
{
}

} // verus!
