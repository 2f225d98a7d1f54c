//! What holds of the scheduler as a whole.

use crate::lifecycle::{
    JobCourse, JobMove, LifecycleEvent, LifecycleExit, LifecyclePhase, StatusUpdate,
};
use crate::scheduler::{JobScheduler, ReadinessRound};
use crate::signals::{Aborter, Announcer, TerminationHandle};
use crate::status::JobStatus;
use crate::status_server::State;
use crate::{lifecycle, registry, scheduler, status_server};
use vstd::prelude::*;

verus! {

/// A job that supports graceful shutdown and is ready is asked to terminate, once, and is not
/// aborted.
pub proof fn law_graceful_job_is_asked(
    listed: Seq<(Seq<char>, JobStatus)>,
    handles: Seq<(Seq<char>, Aborter)>,
    job_name: Seq<char>,
    handle: TerminationHandle,
)
    requires
        registry::distinct_keys(listed),
        registry::distinct_keys(handles),
        registry::as_map(listed).contains_key(job_name),
        registry::as_map(listed)[job_name] == JobStatus::Ready(Some(handle)),
    ensures
        ({
            let status = registry::as_map(listed);
            let asked = registry::as_map(scheduler::asked_entries(listed));
            let after = registry::as_map(scheduler::aborted_entries(handles, status));
            &&& asked.contains_key(job_name)
            &&& asked[job_name] matches JobStatus::Ready(Some(used))
            &&& used.sender() == handle.sender()
            &&& used.sends() == handle.sends().push(Some(()))
            &&& registry::lookup(after, job_name) == registry::lookup(
                registry::as_map(handles),
                job_name,
            )
        }),
{
    let status = registry::as_map(listed);
    registry::lemma_same_keys(listed, scheduler::asked_entries(listed));
    registry::lemma_same_keys(handles, scheduler::aborted_entries(handles, status));
    handle.lemma_after_send(handle.sender(), Some(()));
    assert(registry::as_map(handles).contains_key(job_name) <==> registry::as_map(
        scheduler::aborted_entries(handles, status),
    ).contains_key(job_name));
}

/// Every other listed job is aborted, once, if its lifecycle still lasts: one that is not ready,
/// and one that does not support graceful shutdown. Its status stays what it was.
pub proof fn law_other_job_is_aborted(
    listed: Seq<(Seq<char>, JobStatus)>,
    handles: Seq<(Seq<char>, Aborter)>,
    job_name: Seq<char>,
)
    requires
        registry::distinct_keys(listed),
        registry::distinct_keys(handles),
        registry::as_map(listed).contains_key(job_name),
        !registry::as_map(listed)[job_name].gracefully_terminatable(),
        registry::as_map(handles).contains_key(job_name),
    ensures
        ({
            let status = registry::as_map(listed);
            let before = registry::as_map(handles);
            let asked = registry::as_map(scheduler::asked_entries(listed));
            let after = registry::as_map(scheduler::aborted_entries(handles, status));
            &&& after.contains_key(job_name)
            &&& after[job_name].handle() == before[job_name].handle()
            &&& after[job_name].aborts() == before[job_name].aborts() + 1
            &&& asked.contains_key(job_name)
            &&& asked[job_name] == status[job_name]
        }),
{
    let status = registry::as_map(listed);
    let before = registry::as_map(handles);
    registry::lemma_same_keys(listed, scheduler::asked_entries(listed));
    registry::lemma_same_keys(handles, scheduler::aborted_entries(handles, status));
    before[job_name].lemma_aborted(before[job_name].handle());
    let place = registry::place_of(handles, job_name);
    assert(scheduler::aborted_entries(handles, status)[place].1 == before[job_name].aborted());
}

/// The termination signal is for listed jobs: one that was spawned and is not listed yet is
/// neither asked nor aborted. And it takes no job off the books.
pub proof fn law_only_listed_jobs_are_signalled(
    listed: Seq<(Seq<char>, JobStatus)>,
    handles: Seq<(Seq<char>, Aborter)>,
    job_name: Seq<char>,
)
    requires
        registry::distinct_keys(listed),
        registry::distinct_keys(handles),
    ensures
        ({
            let status = registry::as_map(listed);
            let before = registry::as_map(handles);
            let asked = registry::as_map(scheduler::asked_entries(listed));
            let after = registry::as_map(scheduler::aborted_entries(handles, status));
            &&& asked.contains_key(job_name) <==> status.contains_key(job_name)
            &&& after.contains_key(job_name) <==> before.contains_key(job_name)
            &&& !status.contains_key(job_name) ==> registry::lookup(after, job_name)
                == registry::lookup(before, job_name)
        }),
{
    let status = registry::as_map(listed);
    registry::lemma_same_keys(listed, scheduler::asked_entries(listed));
    registry::lemma_same_keys(handles, scheduler::aborted_entries(handles, status));
    assert(registry::as_map(handles).contains_key(job_name) <==> registry::as_map(
        scheduler::aborted_entries(handles, status),
    ).contains_key(job_name));
}

/// When the termination is complete, every job that was not released has been aborted, once.
pub proof fn law_remaining_jobs_are_killed(
    handles: Seq<(Seq<char>, Aborter)>,
    job_name: Seq<char>,
)
    requires
        registry::distinct_keys(handles),
        registry::as_map(handles).contains_key(job_name),
    ensures
        ({
            let before = registry::as_map(handles);
            let after = registry::as_map(scheduler::killed_entries(handles));
            &&& after.contains_key(job_name)
            &&& after[job_name].handle() == before[job_name].handle()
            &&& after[job_name].aborts() == before[job_name].aborts() + 1
        }),
{
    let before = registry::as_map(handles);
    registry::lemma_same_keys(handles, scheduler::killed_entries(handles));
    before[job_name].lemma_aborted(before[job_name].handle());
    let place = registry::place_of(handles, job_name);
    assert(scheduler::killed_entries(handles)[place].1 == before[job_name].aborted());
}

/// The termination comes to its end after at most [`scheduler::TERMINATION_ROUNDS`]
/// pauses, whatever the jobs do: `graceful` says for each round whether some job may still exit
/// by itself. Until then every round called for a pause.
pub proof fn law_termination_is_bounded(graceful: spec_fn(nat) -> bool)
    ensures
        exists|last: nat|
            {
                &&& last <= scheduler::TERMINATION_ROUNDS
                &&& !(#[trigger] scheduler::calls_for_pause(last, graceful(last)))
                &&& forall|round: nat|
                    round < last ==> #[trigger] scheduler::calls_for_pause(
                        round,
                        graceful(round),
                    )
            },
{
    lemma_first_without_pause(graceful, scheduler::TERMINATION_ROUNDS as nat);
}

proof fn lemma_first_without_pause(graceful: spec_fn(nat) -> bool, bound: nat)
    requires
        !scheduler::calls_for_pause(bound, graceful(bound)),
    ensures
        exists|last: nat|
            {
                &&& last <= bound
                &&& !(#[trigger] scheduler::calls_for_pause(last, graceful(last)))
                &&& forall|round: nat|
                    round < last ==> #[trigger] scheduler::calls_for_pause(
                        round,
                        graceful(round),
                    )
            },
    decreases bound,
{
    if exists|round: nat|
        round < bound && !(#[trigger] scheduler::calls_for_pause(round, graceful(round))) {
        let round = choose|round: nat|
            round < bound && !(#[trigger] scheduler::calls_for_pause(
                round,
                graceful(round),
            ));
        lemma_first_without_pause(graceful, round);
    } else {
        assert(!scheduler::calls_for_pause(bound, graceful(bound)));
    }
}

/// A clean shutdown or a forced termination causes a removal of the job from the status list; a
/// job that has exceeded its crash loop limit stays listed as it is.
pub proof fn law_only_given_up_job_stays_listed(
    status: Map<Seq<char>, JobStatus>,
    job_name: Seq<char>,
    exit: LifecycleExit,
)
    ensures
        ({
            let recorded = scheduler::status_at_exit(status, job_name, exit);
            let left = scheduler::status_after_release(recorded, job_name, exit);
            left == if exit is RetriesExhausted {
                status
            } else {
                status.remove(job_name)
            }
        }),
{
    assert(status.insert(job_name, JobStatus::Terminated).remove(job_name) =~= status.remove(
        job_name,
    ));
}

/// What a job leaves on the status list when its life is over: `moves` is how its lifecycle went
/// until it came to the end `exit` by itself or was aborted. The job is gone, unless it has
/// exceeded its crash loop limit, in which case it is listed as terminated; and the entries of
/// other jobs are what they were.
pub proof fn law_status_list_after_a_job(
    status: Map<Seq<char>, JobStatus>,
    job_name: Seq<char>,
    moves: Seq<JobMove>,
    exit: LifecycleExit,
)
    requires
        JobCourse::started(status, job_name).admits_all(job_name, moves),
        exit is Aborted || JobCourse::started(status, job_name).after_all(job_name, moves).phase
            == LifecyclePhase::Ended(exit),
    ensures
        ({
            let reached = JobCourse::started(status, job_name).after_all(job_name, moves);
            let recorded = scheduler::status_at_exit(reached.status, job_name, exit);
            let left = scheduler::status_after_release(recorded, job_name, exit);
            &&& left.contains_key(job_name) <==> exit is RetriesExhausted
            &&& exit is RetriesExhausted ==> left[job_name] is Terminated
            &&& left.remove(job_name) == status.remove(job_name)
        }),
{
    lifecycle::law_status_follows_lifecycle(status, job_name, moves);
    let reached = JobCourse::started(status, job_name).after_all(job_name, moves);
    law_only_given_up_job_stays_listed(reached.status, job_name, exit);
    assert(reached.status.remove(job_name).remove(job_name) =~= reached.status.remove(job_name));
}

/// A job that crashes and may not be retried leaves the application unrecoverable, as long as
/// that is running, also after the job was released.
pub proof fn law_given_up_job_is_unrecoverable(
    status: Map<Seq<char>, JobStatus>,
    job_name: Seq<char>,
)
    ensures
        ({
            let exit = LifecycleExit::RetriesExhausted;
            let step = lifecycle::lifecycle_step(
                LifecyclePhase::Crashed,
                LifecycleEvent::Backoff(None),
            );
            let ended = lifecycle::updated(status, job_name, step.update);
            let left = scheduler::status_after_release(
                scheduler::status_at_exit(ended, job_name, exit),
                job_name,
                exit,
            );
            &&& step.phase == LifecyclePhase::Ended(exit)
            &&& left.contains_key(job_name)
            &&& left[job_name] is Terminated
            &&& status_server::health(left, State::Running).code() == 410
        }),
{
    let left = status.insert(job_name, JobStatus::Terminated);
    assert(left.contains_key(job_name) && left[job_name] is Terminated);
}

/// What a job's spawner waits for is the job's first readiness: that is announced to the receiver
/// that was handed out when the job was spawned. Later reports of the same job announce nothing.
pub proof fn law_first_readiness_is_announced(
    waiting: Map<Seq<char>, Announcer>,
    job_name: Seq<char>,
    announcer: Announcer,
)
    ensures
        ({
            let spawned = waiting.insert(job_name, announcer);
            let reported = spawned.remove(job_name);
            &&& scheduler::announced_to(spawned, job_name) == Some(announcer.receiver())
            &&& scheduler::announced_to(reported, job_name) is None
        }),
{
}

/// What the round before `round` of a waiting for readiness found. `looks` says for each round
/// whether all jobs are ready then.
pub open spec fn found_before(looks: spec_fn(nat) -> bool, round: nat) -> bool
    decreases round,
{
    if round == 0 {
        false
    } else {
        let earlier = (round - 1) as nat;
        match scheduler::readiness_round(found_before(looks, earlier), looks(earlier)) {
            ReadinessRound::Pause(_, ready) => ready,
            ReadinessRound::Complete => true,
        }
    }
}

/// Checks the status every 100ms: a waiting pauses so long after each look at the jobs, also
/// after the look that finds them ready, which is the one in round `first`, and ends after that
/// pause.
pub proof fn law_waiting_pauses_after_each_look(looks: spec_fn(nat) -> bool, first: nat)
    requires
        looks(first),
        forall|round: nat| round < first ==> !(#[trigger] looks(round)),
    ensures
        forall|round: nat|
            round <= first ==> scheduler::readiness_round(
                #[trigger] found_before(looks, round),
                looks(round),
            ) == ReadinessRound::Pause(100, round == first),
        scheduler::readiness_round(found_before(looks, first + 1), looks(first + 1))
            == ReadinessRound::Complete,
{
    assert forall|round: nat| round <= first implies !(#[trigger] found_before(
        looks,
        round,
    )) by {
        lemma_not_found_before(looks, first, round);
    }
    assert(!found_before(looks, first));
}

proof fn lemma_not_found_before(looks: spec_fn(nat) -> bool, first: nat, round: nat)
    requires
        round <= first,
        forall|round: nat| round < first ==> !(#[trigger] looks(round)),
    ensures
        !found_before(looks, round),
    decreases round,
{
    if round > 0 {
        lemma_not_found_before(looks, first, (round - 1) as nat);
    }
}

/// A scheduler without jobs is ready: the waiting makes one look and one pause of 100ms.
pub proof fn law_empty_scheduler_is_ready(books: JobScheduler)
    requires
        books.status@ == Map::<Seq<char>, JobStatus>::empty(),
        books.termination_handles@ == Map::<Seq<char>, Aborter>::empty(),
    ensures
        books.all_ready(),
        scheduler::readiness_round(false, books.all_ready()) == ReadinessRound::Pause(100, true),
        scheduler::readiness_round(true, books.all_ready()) == ReadinessRound::Complete,
{
}

/// Where the waiting for readiness ends, every registered job is listed as ready: also one that
/// was spawned a moment ago is waited for.
pub proof fn law_registered_jobs_are_waited_for(books: JobScheduler, job_name: Seq<char>)
    requires
        books.all_ready(),
        books.termination_handles@.contains_key(job_name),
    ensures
        books.status@.contains_key(job_name),
        books.status@[job_name] is Ready,
{
}

/// Every listed job can be aborted, but for those that have exceeded their crash loop limit.
pub open spec fn books_balance(
    status: Map<Seq<char>, JobStatus>,
    handles: Map<Seq<char>, Aborter>,
) -> bool {
    forall|job_name: Seq<char>| #[trigger]
        status.contains_key(job_name) ==> handles.contains_key(job_name)
            || status[job_name] is Terminated
}

/// The books of a scheduler balance at first and stay balanced: when a job is spawned, when the
/// entry of a job that was spawned changes or vanishes, and when a job is released, be it that it
/// has exceeded its crash loop limit and is listed so, or that it ended in another way.
pub proof fn law_books_stay_balanced(
    status: Map<Seq<char>, JobStatus>,
    handles: Map<Seq<char>, Aborter>,
    job_name: Seq<char>,
    aborter: Aborter,
    update: StatusUpdate,
    exit: LifecycleExit,
)
    requires
        books_balance(status, handles),
    ensures
        books_balance(Map::empty(), Map::empty()),
        books_balance(status, handles.insert(job_name, aborter)),
        handles.contains_key(job_name) ==> books_balance(
            lifecycle::updated(status, job_name, update),
            handles,
        ),
        handles.contains_key(job_name) ==> books_balance(
            scheduler::status_at_exit(status, job_name, exit),
            handles,
        ),
        (exit is RetriesExhausted ==> status[job_name] is Terminated) ==> books_balance(
            scheduler::status_after_release(status, job_name, exit),
            handles.remove(job_name),
        ),
{
}

/// Where the books balance, the termination reaches every listed job that has not exceeded its
/// crash loop limit: it is either asked to terminate or aborted, once.
pub proof fn law_every_live_job_is_signalled(
    listed: Seq<(Seq<char>, JobStatus)>,
    handles: Seq<(Seq<char>, Aborter)>,
    job_name: Seq<char>,
)
    requires
        registry::distinct_keys(listed),
        registry::distinct_keys(handles),
        books_balance(registry::as_map(listed), registry::as_map(handles)),
        registry::as_map(listed).contains_key(job_name),
        !(registry::as_map(listed)[job_name] is Terminated),
    ensures
        ({
            let status = registry::as_map(listed);
            let before = registry::as_map(handles);
            let asked = registry::as_map(scheduler::asked_entries(listed));
            let after = registry::as_map(scheduler::aborted_entries(handles, status));
            match status[job_name] {
                JobStatus::Ready(Some(handle)) => {
                    &&& asked[job_name] matches JobStatus::Ready(Some(used))
                    &&& used.sends() == handle.sends().push(Some(()))
                },
                _ => after[job_name].aborts() == before[job_name].aborts() + 1,
            }
        }),
{
    let job_status = registry::as_map(listed)[job_name];
    if let JobStatus::Ready(Some(handle)) = job_status {
        law_graceful_job_is_asked(listed, handles, job_name, handle);
    } else {
        law_other_job_is_aborted(listed, handles, job_name);
    }
}

} // verus!
