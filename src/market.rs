//! The marketplace: the job store, the guarded job lifecycle and the escrow
//! movements that go with each transition.
use vstd::prelude::*;
use crate::types::{Address, Job, JobStatus, MarketError, Profile, ROLE_ARTISAN};
use crate::env::Env;
use crate::registry::Registry;
use crate::events::{
    BudgetIncreased, DeadlineExtended, Event, FundsReleased, JobApplication, JobAssigned,
    JobCancelled, JobCompleted, JobCreated, JobStarted,
};

verus! {

/// The platform fee of the fee-charging variant, in percent of the escrow.
pub const FEE_PERCENTAGE: u32 = 1;

/// How long, in seconds, an artisan waits after completing a job before the
/// escrow may be released without review.
pub const REVIEW_WINDOW: u64 = 604800;

/// The record `create_job` stores for a new job.
pub open spec fn opened_job(id: u64, finder: Address, token: Address, amount: i128) -> Job {
    Job {
        id,
        finder,
        artisan: None,
        token,
        amount,
        status: JobStatus::Open,
        start_time: 0,
        end_time: 0,
        deadline: 0,
    }
}

/// Where a registry query for `who` leads: the registry must be the one the
/// market was initialized with, know `who`, and allow `who` to work.
pub open spec fn profile_check(registry: Registry, recorded: Address, who: Address) -> Result<(), MarketError> {
    if registry.spec_address() != recorded || registry.profile_of(who) is None {
        Err(MarketError::NotFound)
    } else if !registry.profile_of(who).unwrap().may_work() {
        Err(MarketError::PolicyViolation)
    } else {
        Ok(())
    }
}

/// What `job` holds in escrow of `token`: its amount while it is unsettled.
pub open spec fn held(job: Job, token: Address) -> int {
    if job.token == token && !job.status.is_terminal() {
        job.amount as int
    } else {
        0
    }
}

/// What the market owes, in `token`, on the unsettled jobs among `jobs`.
pub open spec fn escrowed(jobs: Seq<Job>, token: Address) -> int
    decreases jobs.len(),
{
    if jobs.len() == 0 {
        0
    } else {
        escrowed(jobs.drop_last(), token) + held(jobs.last(), token)
    }
}

proof fn lemma_escrowed_push(jobs: Seq<Job>, job: Job, token: Address)
    ensures
        escrowed(jobs.push(job), token) == escrowed(jobs, token) + held(job, token),
{
    assert(jobs.push(job).drop_last() =~= jobs);
}

proof fn lemma_escrowed_update(jobs: Seq<Job>, i: int, job: Job, token: Address)
    requires
        0 <= i < jobs.len(),
    ensures
        escrowed(jobs.update(i, job), token) == escrowed(jobs, token) - held(jobs[i], token) + held(
            job,
            token,
        ),
    decreases jobs.len(),
{
    if i == jobs.len() - 1 {
        assert(jobs.update(i, job).drop_last() =~= jobs.drop_last());
    } else {
        lemma_escrowed_update(jobs.drop_last(), i, job, token);
        assert(jobs.update(i, job).drop_last() =~= jobs.drop_last().update(i, job));
    }
}

/// Asks `registry` whether `who` may work, where `recorded` is the registry
/// address the market was initialized with.
fn consult(registry: &Registry, recorded: Address, who: Address) -> (r: Result<(), MarketError>)
    ensures
        r == profile_check(*registry, recorded, who),
{
    if registry.address() != recorded {
        return Err(MarketError::NotFound);
    }
    let profile: Profile = match registry.read_profile(who) {
        Some(p) => p,
        None => return Err(MarketError::NotFound),
    };
    if profile.role != ROLE_ARTISAN || profile.is_blacklisted {
        return Err(MarketError::PolicyViolation);
    }
    Ok(())
}

/// Is `who` the artisan recorded in `assigned`?
fn is_assigned(assigned: Option<Address>, who: Address) -> (r: bool)
    ensures
        r == (assigned == Some(who)),
{
    match assigned {
        Some(a) => a == who,
        None => false,
    }
}

/// The marketplace contract's state: its own address (the escrow custodian),
/// the registry it consults, and every job ever created.
pub struct MarketContract {
    address: Address,
    registry_contract: Option<Address>,
    jobs: Vec<Job>,
}

impl MarketContract {
    /// The contract's own address, which holds the escrow.
    pub closed spec fn spec_address(self) -> Address {
        self.address
    }

    /// The registry address recorded by `initialize`.
    pub closed spec fn registry(self) -> Option<Address> {
        self.registry_contract
    }

    /// Every job, the job with id `i + 1` at index `i`.
    pub closed spec fn jobs(self) -> Seq<Job> {
        self.jobs@
    }

    /// The id of the most recently created job, 0 before the first.
    pub open spec fn job_counter(self) -> nat {
        self.jobs().len()
    }

    /// Ids run from 1 without gaps, and each record is well formed.
    pub open spec fn wf(self) -> bool {
        &&& self.jobs().len() <= u64::MAX
        &&& forall|i: int| 0 <= i < self.jobs().len() ==> (#[trigger] self.jobs()[i]).id == i + 1
        &&& forall|i: int| 0 <= i < self.jobs().len() ==> (#[trigger] self.jobs()[i]).wf()
    }

    pub open spec fn has_job(self, id: u64) -> bool {
        1 <= id <= self.jobs().len()
    }

    /// The job with id `id`, where `has_job(id)`.
    pub open spec fn job(self, id: u64) -> Job {
        self.jobs()[id - 1]
    }

    /// The market's balance of `token` beyond what it owes on unsettled
    /// jobs. Every operation keeps it as it was, as long as the other party
    /// of its escrow movement is not the market itself.
    pub open spec fn custody_surplus(self, env: Env, token: Address) -> int {
        env.balance(token, self.spec_address()) - escrowed(self.jobs(), token)
    }

    /// The jobs with the record of `id` replaced by `job`.
    pub open spec fn jobs_with(self, id: u64, job: Job) -> Seq<Job> {
        self.jobs().update(id - 1, job)
    }

    /// How `create_job` ends: the first guard that fails, or the new id.
    pub open spec fn create_job_result(self, env: Env, finder: Address, token: Address, amount: i128) -> Result<u64, MarketError> {
        if !env.authorizes(finder) {
            Err(MarketError::Unauthorized)
        } else if self.job_counter() >= u64::MAX {
            Err(MarketError::Overflow)
        } else if !env.can_transfer(token, finder, self.spec_address(), amount as int) {
            Err(MarketError::TransferFailed)
        } else {
            Ok((self.job_counter() + 1) as u64)
        }
    }

    /// How `assign_artisan` ends: the first guard that fails, or success.
    pub open spec fn assign_artisan_result(
        self,
        env: Env,
        registry: Registry,
        finder: Address,
        job_id: u64,
        artisan: Address,
    ) -> Result<(), MarketError> {
        if self.registry() is None {
            Err(MarketError::NotInitialized)
        } else if !self.has_job(job_id) {
            Err(MarketError::NotFound)
        } else if !env.authorizes(finder) {
            Err(MarketError::Unauthorized)
        } else if self.job(job_id).finder != finder {
            Err(MarketError::NotOwner)
        } else if self.job(job_id).status != JobStatus::Open {
            Err(MarketError::InvalidState)
        } else {
            profile_check(registry, self.registry().unwrap(), artisan)
        }
    }

    /// How `apply_for_job` ends: the first guard that fails, or success.
    pub open spec fn apply_for_job_result(
        self,
        env: Env,
        registry: Registry,
        artisan: Address,
        job_id: u64,
    ) -> Result<(), MarketError> {
        if !env.authorizes(artisan) {
            Err(MarketError::Unauthorized)
        } else if self.registry() is None {
            Err(MarketError::NotInitialized)
        } else if !self.has_job(job_id) {
            Err(MarketError::NotFound)
        } else if self.job(job_id).status != JobStatus::Open {
            Err(MarketError::InvalidState)
        } else {
            profile_check(registry, self.registry().unwrap(), artisan)
        }
    }

    /// How `start_job` ends: the first guard that fails, or success.
    pub open spec fn start_job_result(self, env: Env, artisan: Address, job_id: u64) -> Result<(), MarketError> {
        if !env.authorizes(artisan) {
            Err(MarketError::Unauthorized)
        } else if !self.has_job(job_id) {
            Err(MarketError::NotFound)
        } else if self.job(job_id).status != JobStatus::Assigned {
            Err(MarketError::InvalidState)
        } else if self.job(job_id).artisan != Some(artisan) {
            Err(MarketError::NotOwner)
        } else {
            Ok(())
        }
    }

    /// How `cancel_job` ends: the first guard that fails, or success.
    pub open spec fn cancel_job_result(self, env: Env, finder: Address, job_id: u64) -> Result<(), MarketError> {
        if !env.authorizes(finder) {
            Err(MarketError::Unauthorized)
        } else if !self.has_job(job_id) {
            Err(MarketError::NotFound)
        } else if self.job(job_id).finder != finder {
            Err(MarketError::NotOwner)
        } else if self.job(job_id).status != JobStatus::Open {
            Err(MarketError::InvalidState)
        } else if !env.can_transfer(
            self.job(job_id).token,
            self.spec_address(),
            finder,
            self.job(job_id).amount as int,
        ) {
            Err(MarketError::TransferFailed)
        } else {
            Ok(())
        }
    }

    /// How `complete_job` ends: the first guard that fails, or success.
    pub open spec fn complete_job_result(self, env: Env, artisan: Address, job_id: u64) -> Result<(), MarketError> {
        if !env.authorizes(artisan) {
            Err(MarketError::Unauthorized)
        } else if !self.has_job(job_id) {
            Err(MarketError::NotFound)
        } else if self.job(job_id).artisan != Some(artisan) {
            Err(MarketError::NotOwner)
        } else if self.job(job_id).status != JobStatus::InProgress {
            Err(MarketError::InvalidState)
        } else {
            Ok(())
        }
    }

    /// How `auto_release_funds` ends: the first guard that fails, or success.
    pub open spec fn auto_release_funds_result(self, env: Env, artisan: Address, job_id: u64) -> Result<(), MarketError> {
        if !env.authorizes(artisan) {
            Err(MarketError::Unauthorized)
        } else if !self.has_job(job_id) {
            Err(MarketError::NotFound)
        } else if self.job(job_id).status != JobStatus::PendingReview {
            Err(MarketError::InvalidState)
        } else if self.job(job_id).artisan != Some(artisan) {
            Err(MarketError::NotOwner)
        } else if env.now() <= self.job(job_id).end_time + REVIEW_WINDOW {
            Err(MarketError::TimingNotElapsed)
        } else if !env.can_transfer(
            self.job(job_id).token,
            self.spec_address(),
            artisan,
            self.job(job_id).amount as int,
        ) {
            Err(MarketError::TransferFailed)
        } else {
            Ok(())
        }
    }

    /// How `extend_deadline` ends: the first guard that fails, or success.
    pub open spec fn extend_deadline_result(
        self,
        env: Env,
        finder: Address,
        job_id: u64,
        extra_time: u64,
    ) -> Result<(), MarketError> {
        if !env.authorizes(finder) {
            Err(MarketError::Unauthorized)
        } else if !self.has_job(job_id) {
            Err(MarketError::NotFound)
        } else if self.job(job_id).finder != finder {
            Err(MarketError::NotOwner)
        } else if self.job(job_id).status.is_terminal() {
            Err(MarketError::InvalidState)
        } else if self.job(job_id).deadline + extra_time > u64::MAX {
            Err(MarketError::Overflow)
        } else {
            Ok(())
        }
    }

    /// How `increase_budget` ends: the first guard that fails, or success.
    pub open spec fn increase_budget_result(
        self,
        env: Env,
        finder: Address,
        job_id: u64,
        added_amount: i128,
    ) -> Result<(), MarketError> {
        if !env.authorizes(finder) {
            Err(MarketError::Unauthorized)
        } else if !self.has_job(job_id) {
            Err(MarketError::NotFound)
        } else if self.job(job_id).finder != finder {
            Err(MarketError::NotOwner)
        } else if self.job(job_id).status.is_terminal() {
            Err(MarketError::InvalidState)
        } else if self.job(job_id).amount + added_amount > i128::MAX {
            Err(MarketError::Overflow)
        } else if !env.can_transfer(
            self.job(job_id).token,
            finder,
            self.spec_address(),
            added_amount as int,
        ) {
            Err(MarketError::TransferFailed)
        } else {
            Ok(())
        }
    }

    /// A market deployed at `address`, not yet initialized, with no jobs.
    pub fn new(address: Address) -> (r: MarketContract)
        ensures
            r.wf(),
            r.spec_address() == address,
            r.registry() is None,
            r.jobs() == Seq::<Job>::empty(),
    {
        MarketContract { address, registry_contract: None, jobs: Vec::new() }
    }

    pub fn address(&self) -> (r: Address)
        ensures
            r == self.spec_address(),
    {
        self.address
    }

    /// The id of the most recently created job, 0 before the first.
    pub fn job_count(&self) -> (r: u64)
        requires
            self.wf(),
        ensures
            r == self.job_counter(),
    {
        self.jobs.len() as u64
    }

    /// The index of job `job_id` in the store.
    fn index_of(&self, job_id: u64) -> (r: Option<usize>)
        ensures
            r is Some <==> self.has_job(job_id),
            r is Some ==> r.unwrap() == job_id - 1,
    {
        if job_id >= 1 && job_id <= self.jobs.len() as u64 {
            Some((job_id - 1) as usize)
        } else {
            None
        }
    }

    /// The record of job `job_id`.
    pub fn get_job(&self, job_id: u64) -> (r: Result<Job, MarketError>)
        ensures
            r == (if self.has_job(job_id) {
                Ok(self.job(job_id))
            } else {
                Err(MarketError::NotFound)
            }),
    {
        match self.index_of(job_id) {
            Some(i) => Ok(self.jobs[i]),
            None => Err(MarketError::NotFound),
        }
    }

    /// Records the registry to consult, once.
    pub fn initialize(&mut self, registry_contract: Address) -> (r: Result<(), MarketError>)
        ensures
            r == (if old(self).registry() is Some {
                Err(MarketError::AlreadyInitialized)
            } else {
                Ok(())
            }),
            r is Ok ==> final(self).registry() == Some(registry_contract),
            r is Err ==> final(self).registry() == old(self).registry(),
            final(self).jobs() == old(self).jobs(),
            final(self).spec_address() == old(self).spec_address(),
    {
        if self.registry_contract.is_some() {
            return Err(MarketError::AlreadyInitialized);
        }
        self.registry_contract = Some(registry_contract);
        Ok(())
    }

    /// Replaces the record at `idx`, keeping the store well formed.
    fn store(&mut self, idx: usize, job: Job)
        requires
            old(self).wf(),
            idx < old(self).jobs().len(),
            job.id == idx + 1,
            job.wf(),
        ensures
            final(self).wf(),
            final(self).jobs() == old(self).jobs().update(idx as int, job),
            final(self).registry() == old(self).registry(),
            final(self).spec_address() == old(self).spec_address(),
    {
        self.jobs.set(idx, job);
    }

    /// Posts a job: locks `amount` of `token` from `finder` into escrow and
    /// stores an `Open` record under the next id, which it returns.
    pub fn create_job(&mut self, env: &mut Env, finder: Address, token: Address, amount: i128) -> (r: Result<u64, MarketError>)
        requires
            old(self).wf(),
        ensures
            final(self).wf(),
            r == old(self).create_job_result(*old(env), finder, token, amount),
            r matches Ok(id) ==> final(self).jobs() == old(self).jobs().push(opened_job(id, finder, token, amount)),
            r matches Ok(id) ==> final(env).is_transfer_then_publish_of(
                *old(env),
                token,
                finder,
                old(self).spec_address(),
                amount as int,
                old(self).spec_address(),
                Event::JobCreated(JobCreated { id, amount }),
            ),
            r is Err ==> *final(self) == *old(self) && *final(env) == *old(env),
            r is Ok && finder != old(self).spec_address() ==> forall|t: Address| #[trigger] final(self).custody_surplus(*final(env), t)
                == old(self).custody_surplus(*old(env), t),
            final(self).registry() == old(self).registry(),
            final(self).spec_address() == old(self).spec_address(),
    {
        if !env.require_auth(finder) {
            return Err(MarketError::Unauthorized);
        }
        let counter = self.jobs.len() as u64;
        if counter == u64::MAX {
            return Err(MarketError::Overflow);
        }
        if !env.transfer(token, finder, self.address, amount) {
            return Err(MarketError::TransferFailed);
        }
        let id = counter + 1;
        let job = Job {
            id,
            finder,
            artisan: None,
            token,
            amount,
            status: JobStatus::Open,
            start_time: 0,
            end_time: 0,
            deadline: 0,
        };
        self.jobs.push(job);
        env.publish(self.address, Event::JobCreated(JobCreated { id, amount }));
        proof {
            assert forall|i: int| 0 <= i < self.jobs().len() implies (#[trigger] self.jobs()[i]).id == i + 1
                && self.jobs()[i].wf() by {
                if i < old(self).jobs().len() {
                    assert(self.jobs()[i] == old(self).jobs()[i]);
                }
            }
        }
        proof {
            if finder != self.address {
                assert forall|t: Address| #[trigger] self.custody_surplus(*env, t)
                    == old(self).custody_surplus(*old(env), t) by {
                    lemma_escrowed_push(old(self).jobs(), job, t);
                }
            }
        }
        Ok(id)
    }

    /// Matches an `Open` job with `artisan`, whom the registry must know as
    /// an artisan in good standing; only the job's finder may do this.
    pub fn assign_artisan(
        &mut self,
        env: &mut Env,
        registry: &Registry,
        finder: Address,
        job_id: u64,
        artisan: Address,
    ) -> (r: Result<(), MarketError>)
        requires
            old(self).wf(),
        ensures
            final(self).wf(),
            r == old(self).assign_artisan_result(*old(env), *registry, finder, job_id, artisan),
            r is Ok ==> final(self).jobs() == old(self).jobs_with(
                job_id,
                Job { artisan: Some(artisan), status: JobStatus::Assigned, ..old(self).job(job_id) },
            ),
            r is Ok ==> final(env).is_publish_of(
                *old(env),
                old(self).spec_address(),
                Event::JobAssigned(JobAssigned { id: job_id, artisan }),
            ),
            r is Err ==> *final(self) == *old(self) && *final(env) == *old(env),
            r is Ok ==> forall|t: Address| #[trigger] final(self).custody_surplus(*final(env), t)
                == old(self).custody_surplus(*old(env), t),
            final(self).registry() == old(self).registry(),
            final(self).spec_address() == old(self).spec_address(),
    {
        let recorded = match self.registry_contract {
            Some(a) => a,
            None => return Err(MarketError::NotInitialized),
        };
        let idx = match self.index_of(job_id) {
            Some(i) => i,
            None => return Err(MarketError::NotFound),
        };
        if !env.require_auth(finder) {
            return Err(MarketError::Unauthorized);
        }
        let mut job = self.jobs[idx];
        if job.finder != finder {
            return Err(MarketError::NotOwner);
        }
        if job.status != JobStatus::Open {
            return Err(MarketError::InvalidState);
        }
        match consult(registry, recorded, artisan) {
            Ok(()) => {},
            Err(e) => return Err(e),
        }
        job.artisan = Some(artisan);
        job.status = JobStatus::Assigned;
        self.store(idx, job);
        env.publish(self.address, Event::JobAssigned(JobAssigned { id: job_id, artisan }));
        proof {
            assert forall|t: Address| #[trigger] self.custody_surplus(*env, t)
                == old(self).custody_surplus(*old(env), t) by {
                lemma_escrowed_update(old(self).jobs(), idx as int, job, t);
            }
        }
        Ok(())
    }

    /// Records that `artisan`, an artisan in good standing, applies for an
    /// `Open` job. Nothing but the event log changes.
    pub fn apply_for_job(&self, env: &mut Env, registry: &Registry, artisan: Address, job_id: u64) -> (r: Result<(), MarketError>)
        requires
            self.wf(),
        ensures
            r == self.apply_for_job_result(*old(env), *registry, artisan, job_id),
            r is Ok ==> final(env).is_publish_of(
                *old(env),
                self.spec_address(),
                Event::JobApplication(JobApplication { id: job_id, artisan }),
            ),
            r is Err ==> *final(env) == *old(env),
    {
        if !env.require_auth(artisan) {
            return Err(MarketError::Unauthorized);
        }
        let recorded = match self.registry_contract {
            Some(a) => a,
            None => return Err(MarketError::NotInitialized),
        };
        let idx = match self.index_of(job_id) {
            Some(i) => i,
            None => return Err(MarketError::NotFound),
        };
        if self.jobs[idx].status != JobStatus::Open {
            return Err(MarketError::InvalidState);
        }
        match consult(registry, recorded, artisan) {
            Ok(()) => {},
            Err(e) => return Err(e),
        }
        env.publish(self.address, Event::JobApplication(JobApplication { id: job_id, artisan }));
        Ok(())
    }

    /// The assigned artisan starts an `Assigned` job; the start time is now.
    pub fn start_job(&mut self, env: &mut Env, artisan: Address, job_id: u64) -> (r: Result<(), MarketError>)
        requires
            old(self).wf(),
        ensures
            final(self).wf(),
            r == old(self).start_job_result(*old(env), artisan, job_id),
            r is Ok ==> final(self).jobs() == old(self).jobs_with(
                job_id,
                Job { status: JobStatus::InProgress, start_time: old(env).now(), ..old(self).job(job_id) },
            ),
            r is Ok ==> final(env).is_publish_of(
                *old(env),
                old(self).spec_address(),
                Event::JobStarted(JobStarted { id: job_id, artisan }),
            ),
            r is Err ==> *final(self) == *old(self) && *final(env) == *old(env),
            r is Ok ==> forall|t: Address| #[trigger] final(self).custody_surplus(*final(env), t)
                == old(self).custody_surplus(*old(env), t),
            final(self).registry() == old(self).registry(),
            final(self).spec_address() == old(self).spec_address(),
    {
        if !env.require_auth(artisan) {
            return Err(MarketError::Unauthorized);
        }
        let idx = match self.index_of(job_id) {
            Some(i) => i,
            None => return Err(MarketError::NotFound),
        };
        let mut job = self.jobs[idx];
        if job.status != JobStatus::Assigned {
            return Err(MarketError::InvalidState);
        }
        if !is_assigned(job.artisan, artisan) {
            return Err(MarketError::NotOwner);
        }
        job.status = JobStatus::InProgress;
        job.start_time = env.timestamp();
        self.store(idx, job);
        env.publish(self.address, Event::JobStarted(JobStarted { id: job_id, artisan }));
        proof {
            assert forall|t: Address| #[trigger] self.custody_surplus(*env, t)
                == old(self).custody_surplus(*old(env), t) by {
                lemma_escrowed_update(old(self).jobs(), idx as int, job, t);
            }
        }
        Ok(())
    }

    /// The finder withdraws an `Open` job: its whole escrow goes back to the
    /// finder and the job is `Cancelled`.
    pub fn cancel_job(&mut self, env: &mut Env, finder: Address, job_id: u64) -> (r: Result<(), MarketError>)
        requires
            old(self).wf(),
        ensures
            final(self).wf(),
            r == old(self).cancel_job_result(*old(env), finder, job_id),
            r is Ok ==> final(self).jobs() == old(self).jobs_with(
                job_id,
                Job { status: JobStatus::Cancelled, ..old(self).job(job_id) },
            ),
            r is Ok ==> final(env).is_transfer_then_publish_of(
                *old(env),
                old(self).job(job_id).token,
                old(self).spec_address(),
                finder,
                old(self).job(job_id).amount as int,
                old(self).spec_address(),
                Event::JobCancelled(JobCancelled { id: job_id }),
            ),
            r is Err ==> *final(self) == *old(self) && *final(env) == *old(env),
            r is Ok && finder != old(self).spec_address() ==> forall|t: Address| #[trigger] final(self).custody_surplus(*final(env), t)
                == old(self).custody_surplus(*old(env), t),
            final(self).registry() == old(self).registry(),
            final(self).spec_address() == old(self).spec_address(),
    {
        if !env.require_auth(finder) {
            return Err(MarketError::Unauthorized);
        }
        let idx = match self.index_of(job_id) {
            Some(i) => i,
            None => return Err(MarketError::NotFound),
        };
        let mut job = self.jobs[idx];
        if job.finder != finder {
            return Err(MarketError::NotOwner);
        }
        if job.status != JobStatus::Open {
            return Err(MarketError::InvalidState);
        }
        if !env.transfer(job.token, self.address, finder, job.amount) {
            return Err(MarketError::TransferFailed);
        }
        job.status = JobStatus::Cancelled;
        self.store(idx, job);
        env.publish(self.address, Event::JobCancelled(JobCancelled { id: job_id }));
        proof {
            if finder != self.address {
                assert forall|t: Address| #[trigger] self.custody_surplus(*env, t)
                    == old(self).custody_surplus(*old(env), t) by {
                    lemma_escrowed_update(old(self).jobs(), idx as int, job, t);
                }
            }
        }
        Ok(())
    }

    /// The assigned artisan hands in an `InProgress` job for review; the end
    /// time is now.
    pub fn complete_job(&mut self, env: &mut Env, artisan: Address, job_id: u64) -> (r: Result<(), MarketError>)
        requires
            old(self).wf(),
        ensures
            final(self).wf(),
            r == old(self).complete_job_result(*old(env), artisan, job_id),
            r is Ok ==> final(self).jobs() == old(self).jobs_with(
                job_id,
                Job { status: JobStatus::PendingReview, end_time: old(env).now(), ..old(self).job(job_id) },
            ),
            r is Ok ==> final(env).is_publish_of(
                *old(env),
                old(self).spec_address(),
                Event::JobCompleted(JobCompleted { id: job_id, artisan }),
            ),
            r is Err ==> *final(self) == *old(self) && *final(env) == *old(env),
            r is Ok ==> forall|t: Address| #[trigger] final(self).custody_surplus(*final(env), t)
                == old(self).custody_surplus(*old(env), t),
            final(self).registry() == old(self).registry(),
            final(self).spec_address() == old(self).spec_address(),
    {
        if !env.require_auth(artisan) {
            return Err(MarketError::Unauthorized);
        }
        let idx = match self.index_of(job_id) {
            Some(i) => i,
            None => return Err(MarketError::NotFound),
        };
        let mut job = self.jobs[idx];
        if !is_assigned(job.artisan, artisan) {
            return Err(MarketError::NotOwner);
        }
        if job.status != JobStatus::InProgress {
            return Err(MarketError::InvalidState);
        }
        job.status = JobStatus::PendingReview;
        job.end_time = env.timestamp();
        self.store(idx, job);
        env.publish(self.address, Event::JobCompleted(JobCompleted { id: job_id, artisan }));
        proof {
            assert forall|t: Address| #[trigger] self.custody_surplus(*env, t)
                == old(self).custody_surplus(*old(env), t) by {
                lemma_escrowed_update(old(self).jobs(), idx as int, job, t);
            }
        }
        Ok(())
    }

    /// The assigned artisan settles a job left in review for longer than the
    /// review window: the whole escrow is paid to the artisan and the job is
    /// `Completed`.
    pub fn auto_release_funds(&mut self, env: &mut Env, artisan: Address, job_id: u64) -> (r: Result<(), MarketError>)
        requires
            old(self).wf(),
        ensures
            final(self).wf(),
            r == old(self).auto_release_funds_result(*old(env), artisan, job_id),
            r is Ok ==> final(self).jobs() == old(self).jobs_with(
                job_id,
                Job { status: JobStatus::Completed, ..old(self).job(job_id) },
            ),
            r is Ok ==> final(env).is_transfer_then_publish_of(
                *old(env),
                old(self).job(job_id).token,
                old(self).spec_address(),
                artisan,
                old(self).job(job_id).amount as int,
                old(self).spec_address(),
                Event::FundsReleased(FundsReleased { id: job_id, artisan, amount: old(self).job(job_id).amount }),
            ),
            r is Err ==> *final(self) == *old(self) && *final(env) == *old(env),
            r is Ok && artisan != old(self).spec_address() ==> forall|t: Address| #[trigger] final(self).custody_surplus(*final(env), t)
                == old(self).custody_surplus(*old(env), t),
            final(self).registry() == old(self).registry(),
            final(self).spec_address() == old(self).spec_address(),
    {
        if !env.require_auth(artisan) {
            return Err(MarketError::Unauthorized);
        }
        let idx = match self.index_of(job_id) {
            Some(i) => i,
            None => return Err(MarketError::NotFound),
        };
        let mut job = self.jobs[idx];
        if job.status != JobStatus::PendingReview {
            return Err(MarketError::InvalidState);
        }
        if !is_assigned(job.artisan, artisan) {
            return Err(MarketError::NotOwner);
        }
        let now = env.timestamp();
        if now <= job.end_time || now - job.end_time <= REVIEW_WINDOW {
            return Err(MarketError::TimingNotElapsed);
        }
        if !env.transfer(job.token, self.address, artisan, job.amount) {
            return Err(MarketError::TransferFailed);
        }
        job.status = JobStatus::Completed;
        self.store(idx, job);
        env.publish(
            self.address,
            Event::FundsReleased(FundsReleased { id: job_id, artisan, amount: job.amount }),
        );
        proof {
            if artisan != self.address {
                assert forall|t: Address| #[trigger] self.custody_surplus(*env, t)
                    == old(self).custody_surplus(*old(env), t) by {
                    lemma_escrowed_update(old(self).jobs(), idx as int, job, t);
                }
            }
        }
        Ok(())
    }

    /// The finder pushes the advisory deadline of an unfinished job back by
    /// `extra_time`.
    pub fn extend_deadline(&mut self, env: &mut Env, finder: Address, job_id: u64, extra_time: u64) -> (r: Result<(), MarketError>)
        requires
            old(self).wf(),
        ensures
            final(self).wf(),
            r == old(self).extend_deadline_result(*old(env), finder, job_id, extra_time),
            r is Ok ==> final(self).jobs() == old(self).jobs_with(
                job_id,
                Job { deadline: (old(self).job(job_id).deadline + extra_time) as u64, ..old(self).job(job_id) },
            ),
            r is Ok ==> final(env).is_publish_of(
                *old(env),
                old(self).spec_address(),
                Event::DeadlineExtended(DeadlineExtended {
                    id: job_id,
                    extra_time,
                    new_deadline: (old(self).job(job_id).deadline + extra_time) as u64,
                }),
            ),
            r is Err ==> *final(self) == *old(self) && *final(env) == *old(env),
            r is Ok ==> forall|t: Address| #[trigger] final(self).custody_surplus(*final(env), t)
                == old(self).custody_surplus(*old(env), t),
            final(self).registry() == old(self).registry(),
            final(self).spec_address() == old(self).spec_address(),
    {
        if !env.require_auth(finder) {
            return Err(MarketError::Unauthorized);
        }
        let idx = match self.index_of(job_id) {
            Some(i) => i,
            None => return Err(MarketError::NotFound),
        };
        let mut job = self.jobs[idx];
        if job.finder != finder {
            return Err(MarketError::NotOwner);
        }
        if job.status.is_finalized() {
            return Err(MarketError::InvalidState);
        }
        if job.deadline > u64::MAX - extra_time {
            return Err(MarketError::Overflow);
        }
        job.deadline = job.deadline + extra_time;
        self.store(idx, job);
        env.publish(
            self.address,
            Event::DeadlineExtended(DeadlineExtended { id: job_id, extra_time, new_deadline: job.deadline }),
        );
        proof {
            assert forall|t: Address| #[trigger] self.custody_surplus(*env, t)
                == old(self).custody_surplus(*old(env), t) by {
                lemma_escrowed_update(old(self).jobs(), idx as int, job, t);
            }
        }
        Ok(())
    }

    /// The finder adds `added_amount` to the escrow of an unfinished job.
    pub fn increase_budget(&mut self, env: &mut Env, finder: Address, job_id: u64, added_amount: i128) -> (r: Result<(), MarketError>)
        requires
            old(self).wf(),
        ensures
            final(self).wf(),
            r == old(self).increase_budget_result(*old(env), finder, job_id, added_amount),
            r is Ok ==> final(self).jobs() == old(self).jobs_with(
                job_id,
                Job { amount: (old(self).job(job_id).amount + added_amount) as i128, ..old(self).job(job_id) },
            ),
            r is Ok ==> final(env).is_transfer_then_publish_of(
                *old(env),
                old(self).job(job_id).token,
                finder,
                old(self).spec_address(),
                added_amount as int,
                old(self).spec_address(),
                Event::BudgetIncreased(BudgetIncreased {
                    id: job_id,
                    added_amount,
                    new_amount: (old(self).job(job_id).amount + added_amount) as i128,
                }),
            ),
            r is Err ==> *final(self) == *old(self) && *final(env) == *old(env),
            r is Ok && finder != old(self).spec_address() ==> forall|t: Address| #[trigger] final(self).custody_surplus(*final(env), t)
                == old(self).custody_surplus(*old(env), t),
            final(self).registry() == old(self).registry(),
            final(self).spec_address() == old(self).spec_address(),
    {
        if !env.require_auth(finder) {
            return Err(MarketError::Unauthorized);
        }
        let idx = match self.index_of(job_id) {
            Some(i) => i,
            None => return Err(MarketError::NotFound),
        };
        let mut job = self.jobs[idx];
        if job.finder != finder {
            return Err(MarketError::NotOwner);
        }
        if job.status.is_finalized() {
            return Err(MarketError::InvalidState);
        }
        if added_amount > 0 && job.amount > i128::MAX - added_amount {
            return Err(MarketError::Overflow);
        }
        if !env.transfer(job.token, finder, self.address, added_amount) {
            return Err(MarketError::TransferFailed);
        }
        job.amount = job.amount + added_amount;
        self.store(idx, job);
        env.publish(
            self.address,
            Event::BudgetIncreased(BudgetIncreased { id: job_id, added_amount, new_amount: job.amount }),
        );
        proof {
            if finder != self.address {
                assert forall|t: Address| #[trigger] self.custody_surplus(*env, t)
                    == old(self).custody_surplus(*old(env), t) by {
                    lemma_escrowed_update(old(self).jobs(), idx as int, job, t);
                }
            }
        }
        Ok(())
    }
}

/// The fee on `amount`: `FEE_PERCENTAGE` percent, rounded toward zero as
/// integer division does.
pub open spec fn fee_of(amount: int) -> int {
    let scaled = amount * FEE_PERCENTAGE;
    if scaled >= 0 {
        scaled / 100
    } else {
        -((-scaled) / 100)
    }
}

/// The variant of the marketplace in which the finder confirms delivery and
/// the settlement pays a platform fee to an administrator. It settles jobs of
/// a `MarketContract`, from that contract's escrow.
pub struct MarketplaceContract {
    admin: Option<Address>,
}

impl MarketplaceContract {
    /// The address that receives fees, once set.
    pub closed spec fn spec_admin(self) -> Option<Address> {
        self.admin
    }

    pub fn new(admin: Option<Address>) -> (r: MarketplaceContract)
        ensures
            r.spec_admin() == admin,
    {
        MarketplaceContract { admin }
    }

    /// The administrator; `NotInitialized` while none is set.
    pub fn get_admin(&self) -> (r: Result<Address, MarketError>)
        ensures
            r == (match self.spec_admin() {
                Some(a) => Ok(a),
                None => Err(MarketError::NotInitialized),
            }),
    {
        match self.admin {
            Some(a) => Ok(a),
            None => Err(MarketError::NotInitialized),
        }
    }

    /// The platform fee on `amount`.
    pub fn calculate_fee(amount: i128) -> (r: i128)
        ensures
            r == fee_of(amount as int),
    {
        (amount * FEE_PERCENTAGE as i128) / 100
    }

    /// How `confirm_delivery` ends: the first guard that fails, or success.
    pub open spec fn confirm_delivery_result(
        self,
        market: MarketContract,
        env: Env,
        finder: Address,
        job_id: u64,
    ) -> Result<(), MarketError> {
        if !env.authorizes(finder) {
            Err(MarketError::Unauthorized)
        } else if !market.has_job(job_id) {
            Err(MarketError::NotFound)
        } else if market.job(job_id).finder != finder {
            Err(MarketError::NotOwner)
        } else if market.job(job_id).status != JobStatus::PendingReview {
            Err(MarketError::InvalidState)
        } else if self.spec_admin() is None {
            Err(MarketError::NotInitialized)
        } else {
            let job = market.job(job_id);
            let fee = fee_of(job.amount as int);
            if !env.can_transfer_twice(
                job.token,
                market.spec_address(),
                job.artisan.unwrap(),
                job.amount - fee,
                self.spec_admin().unwrap(),
                fee,
            ) {
                Err(MarketError::TransferFailed)
            } else {
                Ok(())
            }
        }
    }

    /// The finder accepts the work on a job in review: the escrow less the
    /// fee goes to the artisan, the fee to the administrator, and the job is
    /// `Completed`.
    pub fn confirm_delivery(
        &self,
        market: &mut MarketContract,
        env: &mut Env,
        finder: Address,
        job_id: u64,
    ) -> (r: Result<(), MarketError>)
        requires
            old(market).wf(),
        ensures
            final(market).wf(),
            r == self.confirm_delivery_result(*old(market), *old(env), finder, job_id),
            r is Ok ==> final(market).jobs() == old(market).jobs_with(
                job_id,
                Job { status: JobStatus::Completed, ..old(market).job(job_id) },
            ),
            r is Ok ==> final(env).is_transfer_twice_then_publish_of(
                *old(env),
                old(market).job(job_id).token,
                old(market).spec_address(),
                old(market).job(job_id).artisan.unwrap(),
                old(market).job(job_id).amount - fee_of(old(market).job(job_id).amount as int),
                self.spec_admin().unwrap(),
                fee_of(old(market).job(job_id).amount as int),
                old(market).spec_address(),
                Event::FundsReleased(FundsReleased {
                    id: job_id,
                    artisan: old(market).job(job_id).artisan.unwrap(),
                    amount: (old(market).job(job_id).amount - fee_of(old(market).job(job_id).amount as int)) as i128,
                }),
            ),
            r is Err ==> *final(market) == *old(market) && *final(env) == *old(env),
            r is Ok && old(market).job(job_id).artisan.unwrap() != old(market).spec_address()
                && self.spec_admin().unwrap() != old(market).spec_address() ==> forall|t: Address| #[trigger]
                final(market).custody_surplus(*final(env), t) == old(market).custody_surplus(*old(env), t),
            final(market).registry() == old(market).registry(),
            final(market).spec_address() == old(market).spec_address(),
    {
        if !env.require_auth(finder) {
            return Err(MarketError::Unauthorized);
        }
        let idx = match market.index_of(job_id) {
            Some(i) => i,
            None => return Err(MarketError::NotFound),
        };
        let mut job = market.jobs[idx];
        if job.finder != finder {
            return Err(MarketError::NotOwner);
        }
        if job.status != JobStatus::PendingReview {
            return Err(MarketError::InvalidState);
        }
        let admin = match self.admin {
            Some(a) => a,
            None => return Err(MarketError::NotInitialized),
        };
        let artisan = match job.artisan {
            Some(a) => a,
            None => return Err(MarketError::InvalidState),
        };
        let fee = Self::calculate_fee(job.amount);
        let payout = job.amount - fee;
        let custodian = market.address;
        if !env.transfer_twice(job.token, custodian, artisan, payout, admin, fee) {
            return Err(MarketError::TransferFailed);
        }
        job.status = JobStatus::Completed;
        market.store(idx, job);
        env.publish(
            custodian,
            Event::FundsReleased(FundsReleased { id: job_id, artisan, amount: payout }),
        );
        proof {
            if artisan != custodian && admin != custodian {
                assert forall|t: Address| #[trigger] market.custody_surplus(*env, t)
                    == old(market).custody_surplus(*old(env), t) by {
                    lemma_escrowed_update(old(market).jobs(), idx as int, job, t);
                }
            }
        }
        Ok(())
    }
}

} // verus!
