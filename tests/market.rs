use artisan_market::env::Env;
use artisan_market::events::{Event, FundsReleased, JobCreated};
use artisan_market::market::{MarketContract, MarketplaceContract};
use artisan_market::registry::Registry;
use artisan_market::types::{Address, JobStatus, MarketError, Profile, ROLE_ARTISAN};

const MARKET: Address = Address(1);
const REGISTRY: Address = Address(2);
const TOKEN: Address = Address(3);
const ADMIN: Address = Address(10);
const FINDER: Address = Address(11);
const ARTISAN: Address = Address(12);
const OTHER: Address = Address(13);

fn setup_market_and_registry() -> (Address, MarketContract, Address, Registry) {
    let mut market = MarketContract::new(MARKET);
    let registry = Registry::new(REGISTRY);
    market.initialize(REGISTRY).unwrap();
    (MARKET, market, REGISTRY, registry)
}

fn profile(role: u32, is_blacklisted: bool) -> Profile {
    Profile {
        role,
        metadata_hash: "hash".to_string(),
        is_verified: false,
        is_blacklisted,
    }
}

fn seed_artisan_profile(registry: &mut Registry, artisan: Address, role: u32) {
    registry.write_profile(artisan, profile(role, false));
}

fn market_event_count(env: &Env, market_id: Address) -> usize {
    env.events().iter().filter(|e| e.contract == market_id).count()
}

/// A job of 500 posted by FINDER, assigned to ARTISAN, started, and handed in
/// at `end_time`.
fn job_in_pending_review(env: &mut Env, market: &mut MarketContract, registry: &mut Registry, end_time: u64) -> u64 {
    assert!(env.mint(TOKEN, FINDER, 500));
    seed_artisan_profile(registry, ARTISAN, ROLE_ARTISAN);
    let job_id = market.create_job(env, FINDER, TOKEN, 500).unwrap();
    market.assign_artisan(env, registry, FINDER, job_id, ARTISAN).unwrap();
    market.start_job(env, ARTISAN, job_id).unwrap();
    env.set_timestamp(end_time);
    market.complete_job(env, ARTISAN, job_id).unwrap();
    job_id
}

#[test]
fn test_create_job_transfers_funds_and_returns_id() {
    let mut env = Env::new();
    env.mock_all_auths();
    let mut market = MarketContract::new(MARKET);
    assert!(env.mint(TOKEN, FINDER, 1000));
    assert_eq!(env.balance_of(TOKEN, FINDER), 1000);
    let job_id = market.create_job(&mut env, FINDER, TOKEN, 500).unwrap();
    assert_eq!(job_id, 1);
    assert_eq!(env.balance_of(TOKEN, FINDER), 500);
    assert_eq!(env.balance_of(TOKEN, MARKET), 500);
}

#[test]
fn test_assign_artisan_success() {
    let mut env = Env::new();
    env.mock_all_auths();
    let (market_id, mut market, _registry_id, mut registry) = setup_market_and_registry();
    assert!(env.mint(TOKEN, FINDER, 1000));
    seed_artisan_profile(&mut registry, ARTISAN, 3);
    let job_id = market.create_job(&mut env, FINDER, TOKEN, 500).unwrap();
    market.assign_artisan(&mut env, &registry, FINDER, job_id, ARTISAN).unwrap();
    assert!(market_event_count(&env, market_id) >= 1);
    let job = market.get_job(job_id).unwrap();
    assert_eq!(job.status, JobStatus::Assigned);
    assert_eq!(job.artisan, Some(ARTISAN));
}

#[test]
fn test_assign_artisan_job_not_found() {
    let mut env = Env::new();
    env.mock_all_auths();
    let (_, mut market, _, registry) = setup_market_and_registry();
    let r = market.assign_artisan(&mut env, &registry, FINDER, 999, ARTISAN);
    assert_eq!(r, Err(MarketError::NotFound));
}

#[test]
fn test_assign_artisan_job_not_open() {
    let mut env = Env::new();
    env.mock_all_auths();
    let (_, mut market, _, mut registry) = setup_market_and_registry();
    assert!(env.mint(TOKEN, FINDER, 1000));
    let job_id = market.create_job(&mut env, FINDER, TOKEN, 500).unwrap();
    seed_artisan_profile(&mut registry, ARTISAN, 3);
    market.assign_artisan(&mut env, &registry, FINDER, job_id, ARTISAN).unwrap();
    seed_artisan_profile(&mut registry, OTHER, 3);
    let before = market.get_job(job_id).unwrap();
    let r = market.assign_artisan(&mut env, &registry, FINDER, job_id, OTHER);
    assert_eq!(r, Err(MarketError::InvalidState));
    assert_eq!(market.get_job(job_id).unwrap(), before);
}

#[test]
fn test_assign_artisan_not_verified() {
    let mut env = Env::new();
    env.mock_all_auths();
    let (_, mut market, _, mut registry) = setup_market_and_registry();
    assert!(env.mint(TOKEN, FINDER, 1000));
    let job_id = market.create_job(&mut env, FINDER, TOKEN, 500).unwrap();
    seed_artisan_profile(&mut registry, OTHER, 0);
    let r = market.assign_artisan(&mut env, &registry, FINDER, job_id, OTHER);
    assert_eq!(r, Err(MarketError::PolicyViolation));
    assert_eq!(market.get_job(job_id).unwrap().status, JobStatus::Open);
}

#[test]
fn test_assign_artisan_blacklisted() {
    let mut env = Env::new();
    env.mock_all_auths();
    let (_, mut market, _, mut registry) = setup_market_and_registry();
    assert!(env.mint(TOKEN, FINDER, 1000));
    let job_id = market.create_job(&mut env, FINDER, TOKEN, 500).unwrap();
    registry.write_profile(ARTISAN, profile(ROLE_ARTISAN, true));
    let r = market.assign_artisan(&mut env, &registry, FINDER, job_id, ARTISAN);
    assert_eq!(r, Err(MarketError::PolicyViolation));
}

#[test]
fn test_assign_artisan_without_profile() {
    let mut env = Env::new();
    env.mock_all_auths();
    let (_, mut market, _, registry) = setup_market_and_registry();
    assert!(env.mint(TOKEN, FINDER, 1000));
    let job_id = market.create_job(&mut env, FINDER, TOKEN, 500).unwrap();
    let r = market.assign_artisan(&mut env, &registry, FINDER, job_id, ARTISAN);
    assert_eq!(r, Err(MarketError::NotFound));
}

#[test]
fn test_assign_artisan_not_initialized() {
    let mut env = Env::new();
    env.mock_all_auths();
    let mut market = MarketContract::new(MARKET);
    let mut registry = Registry::new(REGISTRY);
    seed_artisan_profile(&mut registry, ARTISAN, ROLE_ARTISAN);
    assert!(env.mint(TOKEN, FINDER, 1000));
    let job_id = market.create_job(&mut env, FINDER, TOKEN, 500).unwrap();
    let r = market.assign_artisan(&mut env, &registry, FINDER, job_id, ARTISAN);
    assert_eq!(r, Err(MarketError::NotInitialized));
}

#[test]
fn test_initialize_twice() {
    let mut market = MarketContract::new(MARKET);
    assert_eq!(market.initialize(REGISTRY), Ok(()));
    assert_eq!(market.initialize(OTHER), Err(MarketError::AlreadyInitialized));
}

#[test]
fn test_apply_for_job_success() {
    let mut env = Env::new();
    env.mock_all_auths();
    let (market_id, mut market, _, mut registry) = setup_market_and_registry();
    assert!(env.mint(TOKEN, FINDER, 1000));
    seed_artisan_profile(&mut registry, ARTISAN, 3);
    let job_id = market.create_job(&mut env, FINDER, TOKEN, 500).unwrap();
    market.apply_for_job(&mut env, &registry, ARTISAN, job_id).unwrap();
    assert!(market_event_count(&env, market_id) >= 1);
    assert_eq!(market.get_job(job_id).unwrap().status, JobStatus::Open);
}

#[test]
fn test_apply_for_job_not_found() {
    let mut env = Env::new();
    env.mock_all_auths();
    let (_, market, _, registry) = setup_market_and_registry();
    let r = market.apply_for_job(&mut env, &registry, ARTISAN, 999);
    assert_eq!(r, Err(MarketError::NotFound));
}

#[test]
fn test_apply_for_job_not_open() {
    let mut env = Env::new();
    env.mock_all_auths();
    let (_, mut market, _, mut registry) = setup_market_and_registry();
    assert!(env.mint(TOKEN, FINDER, 1000));
    let job_id = market.create_job(&mut env, FINDER, TOKEN, 500).unwrap();
    seed_artisan_profile(&mut registry, ARTISAN, 3);
    market.assign_artisan(&mut env, &registry, FINDER, job_id, ARTISAN).unwrap();
    seed_artisan_profile(&mut registry, OTHER, 3);
    let r = market.apply_for_job(&mut env, &registry, OTHER, job_id);
    assert_eq!(r, Err(MarketError::InvalidState));
}

#[test]
fn test_apply_for_job_not_artisan() {
    let mut env = Env::new();
    env.mock_all_auths();
    let (_, mut market, _, mut registry) = setup_market_and_registry();
    assert!(env.mint(TOKEN, FINDER, 1000));
    let job_id = market.create_job(&mut env, FINDER, TOKEN, 500).unwrap();
    seed_artisan_profile(&mut registry, OTHER, 0);
    let r = market.apply_for_job(&mut env, &registry, OTHER, job_id);
    assert_eq!(r, Err(MarketError::PolicyViolation));
}

#[test]
fn test_apply_for_job_blacklisted() {
    let mut env = Env::new();
    env.mock_all_auths();
    let (_, mut market, _, mut registry) = setup_market_and_registry();
    assert!(env.mint(TOKEN, FINDER, 1000));
    let job_id = market.create_job(&mut env, FINDER, TOKEN, 500).unwrap();
    registry.write_profile(OTHER, profile(3, true));
    let r = market.apply_for_job(&mut env, &registry, OTHER, job_id);
    assert_eq!(r, Err(MarketError::PolicyViolation));
}

#[test]
fn test_start_job_success() {
    let mut env = Env::new();
    env.mock_all_auths();
    let (market_id, mut market, _, mut registry) = setup_market_and_registry();
    assert!(env.mint(TOKEN, FINDER, 1000));
    seed_artisan_profile(&mut registry, ARTISAN, 3);
    let job_id = market.create_job(&mut env, FINDER, TOKEN, 500).unwrap();
    market.assign_artisan(&mut env, &registry, FINDER, job_id, ARTISAN).unwrap();
    env.set_timestamp(42);
    market.start_job(&mut env, ARTISAN, job_id).unwrap();
    assert!(market_event_count(&env, market_id) >= 1);
    let job = market.get_job(job_id).unwrap();
    assert_eq!(job.status, JobStatus::InProgress);
    assert_eq!(job.start_time, 42);
}

#[test]
fn test_start_job_not_found() {
    let mut env = Env::new();
    env.mock_all_auths();
    let (_, mut market, _, _) = setup_market_and_registry();
    assert_eq!(market.start_job(&mut env, ARTISAN, 999), Err(MarketError::NotFound));
}

#[test]
fn test_start_job_not_assigned() {
    let mut env = Env::new();
    env.mock_all_auths();
    let (_, mut market, _, mut registry) = setup_market_and_registry();
    assert!(env.mint(TOKEN, FINDER, 1000));
    seed_artisan_profile(&mut registry, ARTISAN, 3);
    let job_id = market.create_job(&mut env, FINDER, TOKEN, 500).unwrap();
    market.assign_artisan(&mut env, &registry, FINDER, job_id, ARTISAN).unwrap();
    assert_eq!(market.start_job(&mut env, OTHER, job_id), Err(MarketError::NotOwner));
}

#[test]
fn test_start_job_wrong_status() {
    let mut env = Env::new();
    env.mock_all_auths();
    let (_, mut market, _, mut registry) = setup_market_and_registry();
    assert!(env.mint(TOKEN, FINDER, 1000));
    seed_artisan_profile(&mut registry, ARTISAN, 3);
    let job_id = market.create_job(&mut env, FINDER, TOKEN, 500).unwrap();
    assert_eq!(market.start_job(&mut env, ARTISAN, job_id), Err(MarketError::InvalidState));
}

#[test]
fn test_start_job_already_started() {
    let mut env = Env::new();
    env.mock_all_auths();
    let (_, mut market, _, mut registry) = setup_market_and_registry();
    assert!(env.mint(TOKEN, FINDER, 1000));
    seed_artisan_profile(&mut registry, ARTISAN, 3);
    let job_id = market.create_job(&mut env, FINDER, TOKEN, 500).unwrap();
    market.assign_artisan(&mut env, &registry, FINDER, job_id, ARTISAN).unwrap();
    market.start_job(&mut env, ARTISAN, job_id).unwrap();
    assert_eq!(market.start_job(&mut env, ARTISAN, job_id), Err(MarketError::InvalidState));
}

#[test]
fn test_start_job_unauthenticated() {
    let mut env = Env::new();
    env.sign(FINDER);
    let (_, mut market, _, mut registry) = setup_market_and_registry();
    assert!(env.mint(TOKEN, FINDER, 1000));
    seed_artisan_profile(&mut registry, ARTISAN, 3);
    let job_id = market.create_job(&mut env, FINDER, TOKEN, 500).unwrap();
    market.assign_artisan(&mut env, &registry, FINDER, job_id, ARTISAN).unwrap();
    assert_eq!(market.start_job(&mut env, ARTISAN, job_id), Err(MarketError::Unauthorized));
    env.sign(ARTISAN);
    assert_eq!(market.start_job(&mut env, ARTISAN, job_id), Ok(()));
}

#[test]
fn test_create_job_unauthenticated() {
    let mut env = Env::new();
    let mut market = MarketContract::new(MARKET);
    assert!(env.mint(TOKEN, FINDER, 1000));
    assert_eq!(market.create_job(&mut env, FINDER, TOKEN, 500), Err(MarketError::Unauthorized));
    assert_eq!(env.balance_of(TOKEN, FINDER), 1000);
    assert_eq!(market.job_count(), 0);
}

#[test]
fn test_create_job_insufficient_funds() {
    let mut env = Env::new();
    env.mock_all_auths();
    let mut market = MarketContract::new(MARKET);
    assert!(env.mint(TOKEN, FINDER, 400));
    assert_eq!(market.create_job(&mut env, FINDER, TOKEN, 500), Err(MarketError::TransferFailed));
    assert_eq!(market.create_job(&mut env, FINDER, TOKEN, -1), Err(MarketError::TransferFailed));
    assert_eq!(env.balance_of(TOKEN, FINDER), 400);
    assert_eq!(env.balance_of(TOKEN, MARKET), 0);
    assert_eq!(market.job_count(), 0);
    assert_eq!(market.get_job(1), Err(MarketError::NotFound));
}

#[test]
fn test_create_job_ids_count_up() {
    let mut env = Env::new();
    env.mock_all_auths();
    let mut market = MarketContract::new(MARKET);
    assert!(env.mint(TOKEN, FINDER, 1000));
    for expected in 1..=5u64 {
        let id = market.create_job(&mut env, FINDER, TOKEN, 10).unwrap();
        assert_eq!(id, expected);
        assert_eq!(market.job_count(), expected);
        assert_eq!(market.get_job(id).unwrap().id, expected);
    }
    assert_eq!(env.balance_of(TOKEN, MARKET), 50);
    assert_eq!(
        env.events()[0].event,
        Event::JobCreated(JobCreated { id: 1, amount: 10 })
    );
}

#[test]
fn test_new_job_record() {
    let mut env = Env::new();
    env.mock_all_auths();
    let mut market = MarketContract::new(MARKET);
    assert!(env.mint(TOKEN, FINDER, 1000));
    let id = market.create_job(&mut env, FINDER, TOKEN, 500).unwrap();
    let job = market.get_job(id).unwrap();
    assert_eq!(job.finder, FINDER);
    assert_eq!(job.artisan, None);
    assert_eq!(job.token, TOKEN);
    assert_eq!(job.amount, 500);
    assert_eq!(job.status, JobStatus::Open);
    assert_eq!((job.start_time, job.end_time, job.deadline), (0, 0, 0));
}

#[test]
fn test_cancel_job_success() {
    let mut env = Env::new();
    env.mock_all_auths();
    let (market_id, mut market, _, _) = setup_market_and_registry();
    assert!(env.mint(TOKEN, FINDER, 1000));
    let job_id = market.create_job(&mut env, FINDER, TOKEN, 500).unwrap();
    let finder_balance_before = env.balance_of(TOKEN, FINDER);
    let contract_balance_before = env.balance_of(TOKEN, market_id);
    market.cancel_job(&mut env, FINDER, job_id).unwrap();
    let finder_balance_after = env.balance_of(TOKEN, FINDER);
    let contract_balance_after = env.balance_of(TOKEN, market_id);
    assert_eq!(finder_balance_after, finder_balance_before + 500);
    assert_eq!(contract_balance_after, contract_balance_before - 500);
    assert_eq!(market.get_job(job_id).unwrap().status, JobStatus::Cancelled);
}

#[test]
fn test_cancel_job_not_found() {
    let mut env = Env::new();
    env.mock_all_auths();
    let (_, mut market, _, _) = setup_market_and_registry();
    assert_eq!(market.cancel_job(&mut env, FINDER, 999), Err(MarketError::NotFound));
}

#[test]
fn test_cancel_job_not_owner() {
    let mut env = Env::new();
    env.mock_all_auths();
    let mut market = setup_market_and_registry().1;
    assert!(env.mint(TOKEN, FINDER, 1000));
    let job_id = market.create_job(&mut env, FINDER, TOKEN, 500).unwrap();
    assert_eq!(market.cancel_job(&mut env, OTHER, job_id), Err(MarketError::NotOwner));
}

#[test]
fn test_cancel_job_already_assigned() {
    let mut env = Env::new();
    env.mock_all_auths();
    let (_, mut market, _, mut registry) = setup_market_and_registry();
    seed_artisan_profile(&mut registry, ARTISAN, 3);
    assert!(env.mint(TOKEN, FINDER, 1000));
    let job_id = market.create_job(&mut env, FINDER, TOKEN, 500).unwrap();
    market.assign_artisan(&mut env, &registry, FINDER, job_id, ARTISAN).unwrap();
    assert_eq!(market.cancel_job(&mut env, FINDER, job_id), Err(MarketError::InvalidState));
    assert_eq!(env.balance_of(TOKEN, MARKET), 500);
}

#[test]
fn test_cancel_job_already_in_progress() {
    let mut env = Env::new();
    env.mock_all_auths();
    let (_, mut market, _, mut registry) = setup_market_and_registry();
    seed_artisan_profile(&mut registry, ARTISAN, 3);
    assert!(env.mint(TOKEN, FINDER, 1000));
    let job_id = market.create_job(&mut env, FINDER, TOKEN, 500).unwrap();
    market.assign_artisan(&mut env, &registry, FINDER, job_id, ARTISAN).unwrap();
    market.start_job(&mut env, ARTISAN, job_id).unwrap();
    assert_eq!(market.cancel_job(&mut env, FINDER, job_id), Err(MarketError::InvalidState));
}

#[test]
fn test_cancelled_job_is_final() {
    let mut env = Env::new();
    env.mock_all_auths();
    let (_, mut market, _, _) = setup_market_and_registry();
    assert!(env.mint(TOKEN, FINDER, 1000));
    let job_id = market.create_job(&mut env, FINDER, TOKEN, 500).unwrap();
    market.cancel_job(&mut env, FINDER, job_id).unwrap();
    let record = market.get_job(job_id).unwrap();
    assert_eq!(market.cancel_job(&mut env, FINDER, job_id), Err(MarketError::InvalidState));
    assert_eq!(market.extend_deadline(&mut env, FINDER, job_id, 10), Err(MarketError::InvalidState));
    assert_eq!(market.increase_budget(&mut env, FINDER, job_id, 10), Err(MarketError::InvalidState));
    assert_eq!(market.get_job(job_id).unwrap(), record);
    assert_eq!(env.balance_of(TOKEN, FINDER), 1000);
}

#[test]
fn test_complete_job_success() {
    let mut env = Env::new();
    env.mock_all_auths();
    let (market_id, mut market, _, mut registry) = setup_market_and_registry();
    assert!(env.mint(TOKEN, FINDER, 1000));
    seed_artisan_profile(&mut registry, ARTISAN, 3);
    let job_id = market.create_job(&mut env, FINDER, TOKEN, 500).unwrap();
    market.assign_artisan(&mut env, &registry, FINDER, job_id, ARTISAN).unwrap();
    market.start_job(&mut env, ARTISAN, job_id).unwrap();
    env.set_timestamp(77);
    market.complete_job(&mut env, ARTISAN, job_id).unwrap();
    assert!(market_event_count(&env, market_id) >= 1);
    let job = market.get_job(job_id).unwrap();
    assert_eq!(job.status, JobStatus::PendingReview);
    assert_eq!(job.end_time, 77);
}

#[test]
fn test_complete_job_not_found() {
    let mut env = Env::new();
    env.mock_all_auths();
    let (_, mut market, _, _) = setup_market_and_registry();
    assert_eq!(market.complete_job(&mut env, ARTISAN, 999), Err(MarketError::NotFound));
}

#[test]
fn test_complete_job_not_assigned() {
    let mut env = Env::new();
    env.mock_all_auths();
    let (_, mut market, _, mut registry) = setup_market_and_registry();
    assert!(env.mint(TOKEN, FINDER, 1000));
    seed_artisan_profile(&mut registry, ARTISAN, 3);
    let job_id = market.create_job(&mut env, FINDER, TOKEN, 500).unwrap();
    market.assign_artisan(&mut env, &registry, FINDER, job_id, ARTISAN).unwrap();
    market.start_job(&mut env, ARTISAN, job_id).unwrap();
    assert_eq!(market.complete_job(&mut env, OTHER, job_id), Err(MarketError::NotOwner));
}

#[test]
fn test_complete_job_wrong_status() {
    let mut env = Env::new();
    env.mock_all_auths();
    let (_, mut market, _, mut registry) = setup_market_and_registry();
    assert!(env.mint(TOKEN, FINDER, 1000));
    seed_artisan_profile(&mut registry, ARTISAN, 3);
    let job_id = market.create_job(&mut env, FINDER, TOKEN, 500).unwrap();
    market.assign_artisan(&mut env, &registry, FINDER, job_id, ARTISAN).unwrap();
    assert_eq!(market.complete_job(&mut env, ARTISAN, job_id), Err(MarketError::InvalidState));
}

#[test]
fn test_auto_release_funds_success_after_7_days() {
    let mut env = Env::new();
    env.mock_all_auths();
    let (market_id, mut market, _, mut registry) = setup_market_and_registry();
    let end_time = 1000u64;
    let job_id = job_in_pending_review(&mut env, &mut market, &mut registry, end_time);
    env.set_timestamp(end_time + 604800 + 1);
    assert_eq!(env.balance_of(TOKEN, ARTISAN), 0);
    assert_eq!(env.balance_of(TOKEN, market_id), 500);
    market.auto_release_funds(&mut env, ARTISAN, job_id).unwrap();
    assert_eq!(env.balance_of(TOKEN, ARTISAN), 500);
    assert_eq!(env.balance_of(TOKEN, market_id), 0);
}

#[test]
fn test_auto_release_funds_fails_before_7_days() {
    let mut env = Env::new();
    env.mock_all_auths();
    let (_, mut market, _, mut registry) = setup_market_and_registry();
    let end_time = 1000u64;
    let job_id = job_in_pending_review(&mut env, &mut market, &mut registry, end_time);
    env.set_timestamp(end_time + 100);
    assert_eq!(
        market.auto_release_funds(&mut env, ARTISAN, job_id),
        Err(MarketError::TimingNotElapsed)
    );
}

#[test]
fn test_auto_release_funds_at_window_boundary() {
    let mut env = Env::new();
    env.mock_all_auths();
    let (_, mut market, _, mut registry) = setup_market_and_registry();
    let end_time = 1000u64;
    let job_id = job_in_pending_review(&mut env, &mut market, &mut registry, end_time);
    env.set_timestamp(end_time + 604800);
    assert_eq!(
        market.auto_release_funds(&mut env, ARTISAN, job_id),
        Err(MarketError::TimingNotElapsed)
    );
    assert_eq!(market.get_job(job_id).unwrap().status, JobStatus::PendingReview);
    env.set_timestamp(end_time + 604801);
    assert_eq!(market.auto_release_funds(&mut env, ARTISAN, job_id), Ok(()));
    let job = market.get_job(job_id).unwrap();
    assert_eq!(job.status, JobStatus::Completed);
    assert_eq!(
        env.events().last().unwrap().event,
        Event::FundsReleased(FundsReleased { id: job_id, artisan: ARTISAN, amount: 500 })
    );
}

#[test]
fn test_auto_release_funds_job_not_found() {
    let mut env = Env::new();
    env.mock_all_auths();
    let (_, mut market, _, _) = setup_market_and_registry();
    assert_eq!(market.auto_release_funds(&mut env, ARTISAN, 999), Err(MarketError::NotFound));
}

#[test]
fn test_auto_release_funds_wrong_status() {
    let mut env = Env::new();
    env.mock_all_auths();
    let (_, mut market, _, mut registry) = setup_market_and_registry();
    let job_id = job_in_pending_review(&mut env, &mut market, &mut registry, 1000);
    env.set_timestamp(1000 + 604800 + 1);
    market.auto_release_funds(&mut env, ARTISAN, job_id).unwrap();
    assert_eq!(market.get_job(job_id).unwrap().status, JobStatus::Completed);
    assert_eq!(
        market.auto_release_funds(&mut env, ARTISAN, job_id),
        Err(MarketError::InvalidState)
    );
    assert_eq!(env.balance_of(TOKEN, ARTISAN), 500);
}

#[test]
fn test_auto_release_funds_wrong_artisan() {
    let mut env = Env::new();
    env.mock_all_auths();
    let (_, mut market, _, mut registry) = setup_market_and_registry();
    let end_time = 1000u64;
    let job_id = job_in_pending_review(&mut env, &mut market, &mut registry, end_time);
    env.set_timestamp(end_time + 604800 + 1);
    assert_eq!(market.auto_release_funds(&mut env, OTHER, job_id), Err(MarketError::NotOwner));
}

#[test]
fn test_extend_deadline_success() {
    let mut env = Env::new();
    env.mock_all_auths();
    let (market_id, mut market, _, _) = setup_market_and_registry();
    assert!(env.mint(TOKEN, FINDER, 1000));
    let job_id = market.create_job(&mut env, FINDER, TOKEN, 500).unwrap();
    market.extend_deadline(&mut env, FINDER, job_id, 259200u64).unwrap();
    assert!(market_event_count(&env, market_id) >= 1);
    assert_eq!(market.get_job(job_id).unwrap().deadline, 259200);
}

#[test]
fn test_extend_deadline_multiple_times() {
    let mut env = Env::new();
    env.mock_all_auths();
    let (_, mut market, _, _) = setup_market_and_registry();
    assert!(env.mint(TOKEN, FINDER, 1000));
    let job_id = market.create_job(&mut env, FINDER, TOKEN, 500).unwrap();
    market.extend_deadline(&mut env, FINDER, job_id, 86400u64).unwrap();
    market.extend_deadline(&mut env, FINDER, job_id, 172800u64).unwrap();
    assert_eq!(market.get_job(job_id).unwrap().deadline, 259200);
}

#[test]
fn test_extend_deadline_job_not_found() {
    let mut env = Env::new();
    env.mock_all_auths();
    let (_, mut market, _, _) = setup_market_and_registry();
    assert_eq!(market.extend_deadline(&mut env, FINDER, 999, 86400u64), Err(MarketError::NotFound));
}

#[test]
fn test_extend_deadline_not_owner() {
    let mut env = Env::new();
    env.mock_all_auths();
    let (_, mut market, _, _) = setup_market_and_registry();
    assert!(env.mint(TOKEN, FINDER, 1000));
    let job_id = market.create_job(&mut env, FINDER, TOKEN, 500).unwrap();
    assert_eq!(market.extend_deadline(&mut env, OTHER, job_id, 86400u64), Err(MarketError::NotOwner));
}

#[test]
fn test_extend_deadline_cancelled_job() {
    let mut env = Env::new();
    env.mock_all_auths();
    let (_, mut market, _, _) = setup_market_and_registry();
    assert!(env.mint(TOKEN, FINDER, 1000));
    let job_id = market.create_job(&mut env, FINDER, TOKEN, 500).unwrap();
    market.cancel_job(&mut env, FINDER, job_id).unwrap();
    assert_eq!(market.extend_deadline(&mut env, FINDER, job_id, 86400u64), Err(MarketError::InvalidState));
}

#[test]
fn test_extend_deadline_completed_job() {
    let mut env = Env::new();
    env.mock_all_auths();
    let (_, mut market, _, mut registry) = setup_market_and_registry();
    let end_time = 1000u64;
    let job_id = job_in_pending_review(&mut env, &mut market, &mut registry, end_time);
    env.set_timestamp(end_time + 604800 + 1);
    market.auto_release_funds(&mut env, ARTISAN, job_id).unwrap();
    let seeded_finder = market.get_job(job_id).unwrap().finder;
    assert_eq!(
        market.extend_deadline(&mut env, seeded_finder, job_id, 86400u64),
        Err(MarketError::InvalidState)
    );
}

#[test]
fn test_extend_deadline_overflow() {
    let mut env = Env::new();
    env.mock_all_auths();
    let (_, mut market, _, _) = setup_market_and_registry();
    assert!(env.mint(TOKEN, FINDER, 1000));
    let job_id = market.create_job(&mut env, FINDER, TOKEN, 500).unwrap();
    market.extend_deadline(&mut env, FINDER, job_id, 10).unwrap();
    assert_eq!(market.extend_deadline(&mut env, FINDER, job_id, u64::MAX), Err(MarketError::Overflow));
    assert_eq!(market.get_job(job_id).unwrap().deadline, 10);
    market.extend_deadline(&mut env, FINDER, job_id, u64::MAX - 10).unwrap();
    assert_eq!(market.get_job(job_id).unwrap().deadline, u64::MAX);
}

#[test]
fn test_increase_budget_success() {
    let mut env = Env::new();
    env.mock_all_auths();
    let (market_id, mut market, _, _) = setup_market_and_registry();
    assert!(env.mint(TOKEN, FINDER, 1000));
    let job_id = market.create_job(&mut env, FINDER, TOKEN, 500).unwrap();
    assert_eq!(env.balance_of(TOKEN, FINDER), 500);
    assert_eq!(env.balance_of(TOKEN, market_id), 500);
    market.increase_budget(&mut env, FINDER, job_id, 200).unwrap();
    assert_eq!(env.balance_of(TOKEN, FINDER), 300);
    assert_eq!(env.balance_of(TOKEN, market_id), 700);
    assert_eq!(market.get_job(job_id).unwrap().amount, 700);
}

#[test]
fn test_increase_budget_multiple_times() {
    let mut env = Env::new();
    env.mock_all_auths();
    let (market_id, mut market, _, _) = setup_market_and_registry();
    assert!(env.mint(TOKEN, FINDER, 1000));
    let job_id = market.create_job(&mut env, FINDER, TOKEN, 300).unwrap();
    market.increase_budget(&mut env, FINDER, job_id, 100).unwrap();
    market.increase_budget(&mut env, FINDER, job_id, 200).unwrap();
    assert_eq!(env.balance_of(TOKEN, market_id), 600);
    assert_eq!(env.balance_of(TOKEN, FINDER), 400);
    assert_eq!(market.get_job(job_id).unwrap().amount, 600);
}

#[test]
fn test_increase_budget_job_not_found() {
    let mut env = Env::new();
    env.mock_all_auths();
    let (_, mut market, _, _) = setup_market_and_registry();
    assert_eq!(market.increase_budget(&mut env, FINDER, 999, 100), Err(MarketError::NotFound));
}

#[test]
fn test_increase_budget_not_owner() {
    let mut env = Env::new();
    env.mock_all_auths();
    let (_, mut market, _, _) = setup_market_and_registry();
    assert!(env.mint(TOKEN, FINDER, 1000));
    assert!(env.mint(TOKEN, OTHER, 1000));
    let job_id = market.create_job(&mut env, FINDER, TOKEN, 500).unwrap();
    assert_eq!(market.increase_budget(&mut env, OTHER, job_id, 100), Err(MarketError::NotOwner));
}

#[test]
fn test_increase_budget_cancelled_job() {
    let mut env = Env::new();
    env.mock_all_auths();
    let (_, mut market, _, _) = setup_market_and_registry();
    assert!(env.mint(TOKEN, FINDER, 1000));
    let job_id = market.create_job(&mut env, FINDER, TOKEN, 500).unwrap();
    market.cancel_job(&mut env, FINDER, job_id).unwrap();
    assert_eq!(market.increase_budget(&mut env, FINDER, job_id, 100), Err(MarketError::InvalidState));
}

#[test]
fn test_increase_budget_completed_job() {
    let mut env = Env::new();
    env.mock_all_auths();
    let (_, mut market, _, mut registry) = setup_market_and_registry();
    let end_time = 1000u64;
    let job_id = job_in_pending_review(&mut env, &mut market, &mut registry, end_time);
    env.set_timestamp(end_time + 604800 + 1);
    market.auto_release_funds(&mut env, ARTISAN, job_id).unwrap();
    let seeded_finder = market.get_job(job_id).unwrap().finder;
    assert!(env.mint(TOKEN, seeded_finder, 100));
    assert_eq!(
        market.increase_budget(&mut env, seeded_finder, job_id, 100),
        Err(MarketError::InvalidState)
    );
    assert_eq!(env.balance_of(TOKEN, seeded_finder), 100);
}

#[test]
fn test_increase_budget_refused_transfer() {
    let mut env = Env::new();
    env.mock_all_auths();
    let (_, mut market, _, _) = setup_market_and_registry();
    assert!(env.mint(TOKEN, FINDER, 600));
    let job_id = market.create_job(&mut env, FINDER, TOKEN, 500).unwrap();
    assert_eq!(market.increase_budget(&mut env, FINDER, job_id, 200), Err(MarketError::TransferFailed));
    assert_eq!(market.increase_budget(&mut env, FINDER, job_id, -5), Err(MarketError::TransferFailed));
    assert_eq!(market.get_job(job_id).unwrap().amount, 500);
    assert_eq!(env.balance_of(TOKEN, FINDER), 100);
}

#[test]
fn test_end_to_end_settlement() {
    let mut env = Env::new();
    env.mock_all_auths();
    let (market_id, mut market, _, mut registry) = setup_market_and_registry();
    assert!(env.mint(TOKEN, FINDER, 500));
    seed_artisan_profile(&mut registry, ARTISAN, ROLE_ARTISAN);
    let artisan_before = env.balance_of(TOKEN, ARTISAN);
    let job_id = market.create_job(&mut env, FINDER, TOKEN, 500).unwrap();
    market.assign_artisan(&mut env, &registry, FINDER, job_id, ARTISAN).unwrap();
    env.set_timestamp(5000);
    market.start_job(&mut env, ARTISAN, job_id).unwrap();
    env.set_timestamp(9000);
    market.complete_job(&mut env, ARTISAN, job_id).unwrap();
    env.set_timestamp(9000 + 604801);
    market.auto_release_funds(&mut env, ARTISAN, job_id).unwrap();
    assert_eq!(env.balance_of(TOKEN, ARTISAN), artisan_before + 500);
    assert_eq!(env.balance_of(TOKEN, market_id), 0);
    let job = market.get_job(job_id).unwrap();
    assert_eq!(job.status, JobStatus::Completed);
    assert_eq!((job.start_time, job.end_time), (5000, 9000));
    assert_eq!(market_event_count(&env, market_id), 5);
}

#[test]
fn test_registry_must_match_recorded_address() {
    let mut env = Env::new();
    env.mock_all_auths();
    let (_, mut market, _, _) = setup_market_and_registry();
    let mut elsewhere = Registry::new(OTHER);
    seed_artisan_profile(&mut elsewhere, ARTISAN, ROLE_ARTISAN);
    assert!(env.mint(TOKEN, FINDER, 1000));
    let job_id = market.create_job(&mut env, FINDER, TOKEN, 500).unwrap();
    assert_eq!(
        market.assign_artisan(&mut env, &elsewhere, FINDER, job_id, ARTISAN),
        Err(MarketError::NotFound)
    );
}

#[test]
fn test_calculate_fee_various_amounts() {
    assert_eq!(MarketplaceContract::calculate_fee(10_000), 100);
    assert_eq!(MarketplaceContract::calculate_fee(50_000), 500);
    assert_eq!(MarketplaceContract::calculate_fee(100), 1);
    assert_eq!(MarketplaceContract::calculate_fee(99), 0);
}

#[test]
fn test_fee_percentage_accuracy() {
    let test_cases = vec![(100, 1), (1_000, 10), (10_000, 100), (99, 0), (50_000, 500), (123_456, 1_234)];
    for (amount, expected_fee) in test_cases {
        assert_eq!(MarketplaceContract::calculate_fee(amount), expected_fee);
    }
    assert_eq!(MarketplaceContract::calculate_fee(-150), -1);
}

/// A job of `amount` in review, escrowed by MARKET.
fn fee_job(env: &mut Env, market: &mut MarketContract, registry: &mut Registry, amount: i128) -> u64 {
    assert!(env.mint(TOKEN, FINDER, amount));
    seed_artisan_profile(registry, ARTISAN, ROLE_ARTISAN);
    let job_id = market.create_job(env, FINDER, TOKEN, amount).unwrap();
    market.assign_artisan(env, registry, FINDER, job_id, ARTISAN).unwrap();
    market.start_job(env, ARTISAN, job_id).unwrap();
    market.complete_job(env, ARTISAN, job_id).unwrap();
    job_id
}

#[test]
fn test_confirm_delivery_success() {
    let mut env = Env::new();
    env.mock_all_auths();
    let (_, mut market, _, mut registry) = setup_market_and_registry();
    let marketplace = MarketplaceContract::new(Some(ADMIN));
    let job_id = fee_job(&mut env, &mut market, &mut registry, 10_000);
    marketplace.confirm_delivery(&mut market, &mut env, FINDER, job_id).unwrap();
    assert_eq!(market.get_job(job_id).unwrap().status, JobStatus::Completed);
    assert_eq!(env.balance_of(TOKEN, ARTISAN), 9_900);
    assert_eq!(env.balance_of(TOKEN, ADMIN), 100);
    assert_eq!(env.balance_of(TOKEN, MARKET), 0);
    assert_eq!(
        env.events().last().unwrap().event,
        Event::FundsReleased(FundsReleased { id: job_id, artisan: ARTISAN, amount: 9_900 })
    );
}

#[test]
fn test_confirm_delivery_with_large_amount() {
    let mut env = Env::new();
    env.mock_all_auths();
    let (_, mut market, _, mut registry) = setup_market_and_registry();
    let marketplace = MarketplaceContract::new(Some(ADMIN));
    let job_id = fee_job(&mut env, &mut market, &mut registry, 1_000_000_000);
    marketplace.confirm_delivery(&mut market, &mut env, FINDER, job_id).unwrap();
    assert_eq!(env.balance_of(TOKEN, ARTISAN), 990_000_000);
    assert_eq!(env.balance_of(TOKEN, ADMIN), 10_000_000);
}

#[test]
fn test_confirm_delivery_unauthorized_caller() {
    let mut env = Env::new();
    env.mock_all_auths();
    let (_, mut market, _, mut registry) = setup_market_and_registry();
    let marketplace = MarketplaceContract::new(Some(ADMIN));
    let job_id = fee_job(&mut env, &mut market, &mut registry, 10_000);
    assert_eq!(
        marketplace.confirm_delivery(&mut market, &mut env, OTHER, job_id),
        Err(MarketError::NotOwner)
    );
}

#[test]
fn test_confirm_delivery_wrong_status() {
    let mut env = Env::new();
    env.mock_all_auths();
    let (_, mut market, _, mut registry) = setup_market_and_registry();
    let marketplace = MarketplaceContract::new(Some(ADMIN));
    let job_id = fee_job(&mut env, &mut market, &mut registry, 10_000);
    marketplace.confirm_delivery(&mut market, &mut env, FINDER, job_id).unwrap();
    assert_eq!(
        marketplace.confirm_delivery(&mut market, &mut env, FINDER, job_id),
        Err(MarketError::InvalidState)
    );
    assert_eq!(env.balance_of(TOKEN, ARTISAN), 9_900);
}

#[test]
fn test_confirm_delivery_nonexistent_job() {
    let mut env = Env::new();
    env.mock_all_auths();
    let (_, mut market, _, _) = setup_market_and_registry();
    let marketplace = MarketplaceContract::new(Some(ADMIN));
    assert_eq!(
        marketplace.confirm_delivery(&mut market, &mut env, FINDER, 999),
        Err(MarketError::NotFound)
    );
}

#[test]
fn test_confirm_delivery_without_admin() {
    let mut env = Env::new();
    env.mock_all_auths();
    let (_, mut market, _, mut registry) = setup_market_and_registry();
    let marketplace = MarketplaceContract::new(None);
    let job_id = fee_job(&mut env, &mut market, &mut registry, 10_000);
    assert_eq!(marketplace.get_admin(), Err(MarketError::NotInitialized));
    assert_eq!(
        marketplace.confirm_delivery(&mut market, &mut env, FINDER, job_id),
        Err(MarketError::NotInitialized)
    );
    assert_eq!(env.balance_of(TOKEN, MARKET), 10_000);
}

#[test]
fn test_confirm_delivery_multiple_jobs() {
    let mut env = Env::new();
    env.mock_all_auths();
    let (_, mut market, _, mut registry) = setup_market_and_registry();
    let marketplace = MarketplaceContract::new(Some(ADMIN));
    let mut ids = Vec::new();
    for i in 1..=3i128 {
        ids.push(fee_job(&mut env, &mut market, &mut registry, 10_000 * i));
    }
    for job_id in ids {
        marketplace.confirm_delivery(&mut market, &mut env, FINDER, job_id).unwrap();
        assert_eq!(market.get_job(job_id).unwrap().status, JobStatus::Completed);
    }
    assert_eq!(env.balance_of(TOKEN, ADMIN), 600);
    assert_eq!(env.balance_of(TOKEN, ARTISAN), 59_400);
}

#[test]
fn test_escrow_matches_unsettled_jobs() {
    let mut env = Env::new();
    env.mock_all_auths();
    let (market_id, mut market, _, mut registry) = setup_market_and_registry();
    assert!(env.mint(TOKEN, FINDER, 2000));
    seed_artisan_profile(&mut registry, ARTISAN, ROLE_ARTISAN);
    let first = market.create_job(&mut env, FINDER, TOKEN, 500).unwrap();
    let second = market.create_job(&mut env, FINDER, TOKEN, 300).unwrap();
    let third = market.create_job(&mut env, FINDER, TOKEN, 200).unwrap();
    assert_eq!(env.balance_of(TOKEN, market_id), 1000);
    market.cancel_job(&mut env, FINDER, second).unwrap();
    market.increase_budget(&mut env, FINDER, third, 50).unwrap();
    assert_eq!(env.balance_of(TOKEN, market_id), 750);
    market.assign_artisan(&mut env, &registry, FINDER, first, ARTISAN).unwrap();
    market.start_job(&mut env, ARTISAN, first).unwrap();
    market.complete_job(&mut env, ARTISAN, first).unwrap();
    env.set_timestamp(604801);
    market.auto_release_funds(&mut env, ARTISAN, first).unwrap();
    assert_eq!(env.balance_of(TOKEN, market_id), 250);
    assert_eq!(market.get_job(third).unwrap().amount, 250);
    assert_eq!(env.balance_of(TOKEN, FINDER), 2000 - 500 - 200 - 50);
    assert_eq!(env.balance_of(TOKEN, ARTISAN), 500);
}
