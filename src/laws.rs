//! Properties that relate the marketplace's operations to one another,
//! stated over the same spec functions as the operations' contracts.
use vstd::prelude::*;
use crate::types::{Address, Job, JobStatus, MarketError, ROLE_ARTISAN};
use crate::env::Env;
use crate::events::Event;
use crate::registry::Registry;
use crate::market::{opened_job, MarketContract, REVIEW_WINDOW};

verus! {

/// An abort that a job's own guards produce, as opposed to a missing job,
/// a missing authentication or a refused transfer.
pub open spec fn is_guard_error<T>(r: Result<T, MarketError>) -> bool {
    r == Err::<T, MarketError>(MarketError::InvalidState)
        || r == Err::<T, MarketError>(MarketError::NotOwner)
        || r == Err::<T, MarketError>(MarketError::PolicyViolation)
}

proof fn lemma_counter_tracks_creations(
    markets: Seq<MarketContract>,
    envs: Seq<Env>,
    finders: Seq<Address>,
    tokens: Seq<Address>,
    amounts: Seq<i128>,
    ids: Seq<u64>,
    k: int,
)
    requires
        markets.len() == ids.len() + 1,
        envs.len() == ids.len(),
        finders.len() == ids.len(),
        tokens.len() == ids.len(),
        amounts.len() == ids.len(),
        markets[0].jobs().len() == 0,
        forall|i: int| 0 <= i < ids.len() ==> #[trigger] markets[i + 1].jobs() == markets[i].jobs().push(
            opened_job(ids[i], finders[i], tokens[i], amounts[i]),
        ),
        0 <= k <= ids.len(),
    ensures
        markets[k].jobs().len() == k,
    decreases k,
{
    if k > 0 {
        lemma_counter_tracks_creations(markets, envs, finders, tokens, amounts, ids, k - 1);
        assert(markets[(k - 1) + 1].jobs() == markets[k - 1].jobs().push(
            opened_job(ids[k - 1], finders[k - 1], tokens[k - 1], amounts[k - 1]),
        ));
    }
}

/// Ids count up from 1 without gaps: starting from a market with no jobs,
/// the k-th of a run of successful `create_job` calls returns id k.
pub proof fn lemma_ids_count_from_one(
    markets: Seq<MarketContract>,
    envs: Seq<Env>,
    finders: Seq<Address>,
    tokens: Seq<Address>,
    amounts: Seq<i128>,
    ids: Seq<u64>,
)
    requires
        markets.len() == ids.len() + 1,
        envs.len() == ids.len(),
        finders.len() == ids.len(),
        tokens.len() == ids.len(),
        amounts.len() == ids.len(),
        markets[0].jobs().len() == 0,
        forall|i: int| 0 <= i < ids.len() ==> #[trigger] markets[i].create_job_result(
            envs[i],
            finders[i],
            tokens[i],
            amounts[i],
        ) == Ok::<u64, MarketError>(ids[i]),
        forall|i: int| 0 <= i < ids.len() ==> #[trigger] markets[i + 1].jobs() == markets[i].jobs().push(
            opened_job(ids[i], finders[i], tokens[i], amounts[i]),
        ),
    ensures
        forall|i: int| 0 <= i < ids.len() ==> ids[i] == i + 1,
{
    assert forall|i: int| 0 <= i < ids.len() implies ids[i] == i + 1 by {
        lemma_counter_tracks_creations(markets, envs, finders, tokens, amounts, ids, i);
        assert(markets[i].create_job_result(envs[i], finders[i], tokens[i], amounts[i]) == Ok::<u64, MarketError>(ids[i]));
    }
}

/// Each operation admits only the statuses of the lifecycle table. For any
/// other status, an operation on an existing job by an authenticated caller
/// of an initialized market aborts with a guard error; an aborted operation
/// changes nothing.
pub proof fn lemma_illegal_transitions_abort(
    m: MarketContract,
    env: Env,
    registry: Registry,
    caller: Address,
    job_id: u64,
    artisan: Address,
    extra_time: u64,
    added_amount: i128,
)
    requires
        m.has_job(job_id),
        m.registry() is Some,
        env.authorizes(caller),
    ensures
        m.job(job_id).status != JobStatus::Open ==> is_guard_error(
            m.assign_artisan_result(env, registry, caller, job_id, artisan),
        ),
        m.job(job_id).status != JobStatus::Open ==> is_guard_error(
            m.apply_for_job_result(env, registry, caller, job_id),
        ),
        m.job(job_id).status != JobStatus::Assigned ==> is_guard_error(
            m.start_job_result(env, caller, job_id),
        ),
        m.job(job_id).status != JobStatus::InProgress ==> is_guard_error(
            m.complete_job_result(env, caller, job_id),
        ),
        m.job(job_id).status != JobStatus::Open ==> is_guard_error(
            m.cancel_job_result(env, caller, job_id),
        ),
        m.job(job_id).status != JobStatus::PendingReview ==> is_guard_error(
            m.auto_release_funds_result(env, caller, job_id),
        ),
        m.job(job_id).status.is_terminal() ==> is_guard_error(
            m.extend_deadline_result(env, caller, job_id, extra_time),
        ),
        m.job(job_id).status.is_terminal() ==> is_guard_error(
            m.increase_budget_result(env, caller, job_id, added_amount),
        ),
{
}

/// Cancelling an `Open` job refunds exactly its escrow to the finder and
/// makes it `Cancelled`; after that, cancelling it again, extending its
/// deadline or raising its budget aborts, and aborts as finalized when the
/// finder asks.
pub proof fn lemma_cancel_refunds_and_finalizes(
    m0: MarketContract,
    m1: MarketContract,
    e0: Env,
    e1: Env,
    finder: Address,
    job_id: u64,
    event: Event,
    later: Env,
    caller: Address,
    extra_time: u64,
    added_amount: i128,
)
    requires
        m0.wf(),
        m0.cancel_job_result(e0, finder, job_id) is Ok,
        m1.jobs() == m0.jobs_with(job_id, Job { status: JobStatus::Cancelled, ..m0.job(job_id) }),
        e1.is_transfer_then_publish_of(
            e0,
            m0.job(job_id).token,
            m0.spec_address(),
            finder,
            m0.job(job_id).amount as int,
            m0.spec_address(),
            event,
        ),
        finder != m0.spec_address(),
    ensures
        e1.balance(m0.job(job_id).token, finder) == e0.balance(m0.job(job_id).token, finder)
            + m0.job(job_id).amount,
        e1.balance(m0.job(job_id).token, m0.spec_address()) == e0.balance(
            m0.job(job_id).token,
            m0.spec_address(),
        ) - m0.job(job_id).amount,
        m1.job(job_id).status == JobStatus::Cancelled,
        m1.cancel_job_result(later, caller, job_id) is Err,
        m1.extend_deadline_result(later, caller, job_id, extra_time) is Err,
        m1.increase_budget_result(later, caller, job_id, added_amount) is Err,
        later.authorizes(finder) ==> m1.cancel_job_result(later, finder, job_id) == Err::<(), MarketError>(
            MarketError::InvalidState,
        ),
        later.authorizes(finder) ==> m1.extend_deadline_result(later, finder, job_id, extra_time)
            == Err::<(), MarketError>(MarketError::InvalidState),
        later.authorizes(finder) ==> m1.increase_budget_result(later, finder, job_id, added_amount)
            == Err::<(), MarketError>(MarketError::InvalidState),
{
    let token = m0.job(job_id).token;
    assert(e1.balance(token, finder) == e0.balance(token, finder) + crate::env::transfer_delta(
        token,
        m0.spec_address(),
        finder,
        m0.job(job_id).amount as int,
        token,
        finder,
    ));
    assert(e1.balance(token, m0.spec_address()) == e0.balance(token, m0.spec_address())
        + crate::env::transfer_delta(
        token,
        m0.spec_address(),
        finder,
        m0.job(job_id).amount as int,
        token,
        m0.spec_address(),
    ));
    assert(m1.job(job_id) == Job { status: JobStatus::Cancelled, ..m0.job(job_id) });
}

/// The registry gate of `assign_artisan`: on an `Open` job of an
/// initialized market, the owner's request succeeds exactly for a candidate
/// whose profile has the artisan role and no blacklisting; an unknown
/// candidate aborts as not found, any other as a policy violation. On a job
/// that is no longer `Open` it aborts as an invalid state.
pub proof fn lemma_assign_artisan_gate(
    m: MarketContract,
    env: Env,
    registry: Registry,
    finder: Address,
    job_id: u64,
    artisan: Address,
)
    requires
        m.has_job(job_id),
        m.registry() == Some(registry.spec_address()),
        env.authorizes(finder),
        m.job(job_id).finder == finder,
    ensures
        m.job(job_id).status != JobStatus::Open ==> m.assign_artisan_result(
            env,
            registry,
            finder,
            job_id,
            artisan,
        ) == Err::<(), MarketError>(MarketError::InvalidState),
        m.job(job_id).status == JobStatus::Open && registry.profile_of(artisan) is None
            ==> m.assign_artisan_result(env, registry, finder, job_id, artisan) == Err::<(), MarketError>(
            MarketError::NotFound,
        ),
        m.job(job_id).status == JobStatus::Open && registry.profile_of(artisan) is Some && (
        registry.profile_of(artisan).unwrap().role != ROLE_ARTISAN
            || registry.profile_of(artisan).unwrap().is_blacklisted) ==> m.assign_artisan_result(
            env,
            registry,
            finder,
            job_id,
            artisan,
        ) == Err::<(), MarketError>(MarketError::PolicyViolation),
        m.job(job_id).status == JobStatus::Open && registry.profile_of(artisan) is Some
            && registry.profile_of(artisan).unwrap().role == ROLE_ARTISAN
            && !registry.profile_of(artisan).unwrap().is_blacklisted ==> m.assign_artisan_result(
            env,
            registry,
            finder,
            job_id,
            artisan,
        ) == Ok::<(), MarketError>(()),
{
}

/// A job is assigned at most once: after a successful assignment, a second
/// request by the owner aborts as an invalid state, whoever the candidate.
pub proof fn lemma_assign_only_once(
    m0: MarketContract,
    m1: MarketContract,
    e0: Env,
    e1: Env,
    registry: Registry,
    finder: Address,
    job_id: u64,
    first: Address,
    second: Address,
)
    requires
        m0.assign_artisan_result(e0, registry, finder, job_id, first) is Ok,
        m1.jobs() == m0.jobs_with(
            job_id,
            Job { artisan: Some(first), status: JobStatus::Assigned, ..m0.job(job_id) },
        ),
        m1.registry() == m0.registry(),
        e1.authorizes(finder),
    ensures
        m1.assign_artisan_result(e1, registry, finder, job_id, second) == Err::<(), MarketError>(
            MarketError::InvalidState,
        ),
{
    assert(m1.job(job_id) == Job { artisan: Some(first), status: JobStatus::Assigned, ..m0.job(job_id) });
}

/// Settlement without review: for the assigned artisan's authenticated
/// request on an existing job whose escrow the token can pay out, release
/// succeeds exactly when the job is in review and the clock is past the end
/// time plus the review window; at the last second of the window it aborts
/// as not yet elapsed.
pub proof fn lemma_auto_release_window(m: MarketContract, env: Env, artisan: Address, job_id: u64)
    requires
        m.has_job(job_id),
        env.authorizes(artisan),
        env.can_transfer(m.job(job_id).token, m.spec_address(), artisan, m.job(job_id).amount as int),
    ensures
        m.auto_release_funds_result(env, artisan, job_id) is Ok <==> (m.job(job_id).status
            == JobStatus::PendingReview && m.job(job_id).artisan == Some(artisan) && env.now()
            > m.job(job_id).end_time + REVIEW_WINDOW),
        m.job(job_id).status == JobStatus::PendingReview && m.job(job_id).artisan == Some(artisan)
            && env.now() == m.job(job_id).end_time + REVIEW_WINDOW ==> m.auto_release_funds_result(
            env,
            artisan,
            job_id,
        ) == Err::<(), MarketError>(MarketError::TimingNotElapsed),
{
}

/// Budget increases add up: after two successful increases by `a` and then
/// `b`, the escrow has grown by `a + b`, the finder has paid `a + b` and the
/// market holds `a + b` more.
pub proof fn lemma_budget_increases_add_up(
    m0: MarketContract,
    m1: MarketContract,
    m2: MarketContract,
    e0: Env,
    e1: Env,
    e2: Env,
    finder: Address,
    job_id: u64,
    a: i128,
    b: i128,
    ev1: Event,
    ev2: Event,
)
    requires
        m0.increase_budget_result(e0, finder, job_id, a) is Ok,
        m1.jobs() == m0.jobs_with(
            job_id,
            Job { amount: (m0.job(job_id).amount + a) as i128, ..m0.job(job_id) },
        ),
        m1.spec_address() == m0.spec_address(),
        e1.is_transfer_then_publish_of(e0, m0.job(job_id).token, finder, m0.spec_address(), a as int, m0.spec_address(), ev1),
        m1.increase_budget_result(e1, finder, job_id, b) is Ok,
        m2.jobs() == m1.jobs_with(
            job_id,
            Job { amount: (m1.job(job_id).amount + b) as i128, ..m1.job(job_id) },
        ),
        e2.is_transfer_then_publish_of(e1, m1.job(job_id).token, finder, m1.spec_address(), b as int, m1.spec_address(), ev2),
        finder != m0.spec_address(),
    ensures
        m2.job(job_id).amount == m0.job(job_id).amount + a + b,
        m2.job(job_id).token == m0.job(job_id).token,
        e2.balance(m0.job(job_id).token, finder) == e0.balance(m0.job(job_id).token, finder) - a - b,
        e2.balance(m0.job(job_id).token, m0.spec_address()) == e0.balance(
            m0.job(job_id).token,
            m0.spec_address(),
        ) + a + b,
{
    let token = m0.job(job_id).token;
    let c = m0.spec_address();
    assert(m1.job(job_id) == Job { amount: (m0.job(job_id).amount + a) as i128, ..m0.job(job_id) });
    assert(m2.job(job_id) == Job { amount: (m1.job(job_id).amount + b) as i128, ..m1.job(job_id) });
    assert(e1.balance(token, finder) == e0.balance(token, finder) + crate::env::transfer_delta(token, finder, c, a as int, token, finder));
    assert(e1.balance(token, c) == e0.balance(token, c) + crate::env::transfer_delta(token, finder, c, a as int, token, c));
    assert(e2.balance(token, finder) == e1.balance(token, finder) + crate::env::transfer_delta(token, finder, c, b as int, token, finder));
    assert(e2.balance(token, c) == e1.balance(token, c) + crate::env::transfer_delta(token, finder, c, b as int, token, c));
}

/// Deadline extensions add up: after two successful extensions by `x` and
/// then `y`, the deadline has moved by `x + y`.
pub proof fn lemma_deadline_extensions_add_up(
    m0: MarketContract,
    m1: MarketContract,
    m2: MarketContract,
    e0: Env,
    e1: Env,
    finder: Address,
    job_id: u64,
    x: u64,
    y: u64,
)
    requires
        m0.extend_deadline_result(e0, finder, job_id, x) is Ok,
        m1.jobs() == m0.jobs_with(
            job_id,
            Job { deadline: (m0.job(job_id).deadline + x) as u64, ..m0.job(job_id) },
        ),
        m1.extend_deadline_result(e1, finder, job_id, y) is Ok,
        m2.jobs() == m1.jobs_with(
            job_id,
            Job { deadline: (m1.job(job_id).deadline + y) as u64, ..m1.job(job_id) },
        ),
    ensures
        m2.job(job_id).deadline == m0.job(job_id).deadline + x + y,
{
    assert(m1.job(job_id) == Job { deadline: (m0.job(job_id).deadline + x) as u64, ..m0.job(job_id) });
    assert(m2.job(job_id) == Job { deadline: (m1.job(job_id).deadline + y) as u64, ..m1.job(job_id) });
}

} // verus!
