//! What a job tells the scheduler about itself.

use vstd::prelude::*;

verus! {

/// Persistent execution unit
///
/// Jobs can be dependent on resources (which can be basically anything you define).
/// If such a resource dependency becomes unavailable the job is terminated and restarted.
///
/// In addition, jobs can support graceful shutdown and a ready state.
pub trait Job {
    /// Name of the job displayed in log messages
    const NAME: &'static str;

    /// Whether or not the job honors the termination signal. When this is set to false the job
    /// will be terminated externally.
    const SUPPORTS_GRACEFUL_TERMINATION: bool = false;

    /// The name under which the scheduler files the job: [`Job::NAME`], unless the job says
    /// otherwise.
    fn name(&self) -> (name: String)
        default_ensures
            name@ == Self::NAME@,
    {
        Self::NAME.to_owned()
    }

    /// Whether the job honors the termination signal:
    /// [`Job::SUPPORTS_GRACEFUL_TERMINATION`], unless the job says otherwise.
    fn supports_graceful_termination(&self) -> (supported: bool)
        default_ensures
            supported == Self::SUPPORTS_GRACEFUL_TERMINATION,
    {
        Self::SUPPORTS_GRACEFUL_TERMINATION
    }
}

/// Jobs of this type answer with their type's constants, as they do where the type leaves both
/// methods as they are.
pub open spec fn answers_by_type<J: Job>() -> bool {
    &&& forall|job: &J, name: String| #[trigger]
        call_ensures(J::name, (job,), name) ==> name@ == J::NAME@
    &&& forall|job: &J, supported: bool| #[trigger]
        call_ensures(J::supports_graceful_termination, (job,), supported) ==> supported
            == J::SUPPORTS_GRACEFUL_TERMINATION
}

/// Where jobs answer with their type's constants, two jobs of one type, or one job asked twice,
/// have one name, which is [`Job::NAME`], and support graceful termination alike.
pub proof fn law_jobs_of_a_type_answer_alike<J: Job>(
    a: &J,
    b: &J,
    names: (String, String),
    supported: (bool, bool),
)
    requires
        answers_by_type::<J>(),
        call_ensures(J::name, (a,), names.0),
        call_ensures(J::name, (b,), names.1),
        call_ensures(J::supports_graceful_termination, (a,), supported.0),
        call_ensures(J::supports_graceful_termination, (b,), supported.1),
    ensures
        names.0@ == J::NAME@,
        names.1@ == names.0@,
        supported.0 == J::SUPPORTS_GRACEFUL_TERMINATION,
        supported.1 == supported.0,
{
}

} // verus!
