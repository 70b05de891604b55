//! The structured records that successful operations append to the ledger's
//! event log.
use vstd::prelude::*;
use crate::types::Address;

verus! {

#[derive(Clone, Copy, Debug, PartialEq, Eq)]
pub struct JobCreated {
    pub id: u64,
    pub amount: i128,
}

#[derive(Clone, Copy, Debug, PartialEq, Eq)]
pub struct JobAssigned {
    pub id: u64,
    pub artisan: Address,
}

#[derive(Clone, Copy, Debug, PartialEq, Eq)]
pub struct JobApplication {
    pub id: u64,
    pub artisan: Address,
}

#[derive(Clone, Copy, Debug, PartialEq, Eq)]
pub struct JobStarted {
    pub id: u64,
    pub artisan: Address,
}

#[derive(Clone, Copy, Debug, PartialEq, Eq)]
pub struct JobCancelled {
    pub id: u64,
}

#[derive(Clone, Copy, Debug, PartialEq, Eq)]
pub struct JobCompleted {
    pub id: u64,
    pub artisan: Address,
}

#[derive(Clone, Copy, Debug, PartialEq, Eq)]
pub struct FundsReleased {
    pub id: u64,
    pub artisan: Address,
    pub amount: i128,
}

#[derive(Clone, Copy, Debug, PartialEq, Eq)]
pub struct DeadlineExtended {
    pub id: u64,
    pub extra_time: u64,
    pub new_deadline: u64,
}

#[derive(Clone, Copy, Debug, PartialEq, Eq)]
pub struct BudgetIncreased {
    pub id: u64,
    pub added_amount: i128,
    pub new_amount: i128,
}

#[derive(Clone, Debug, PartialEq, Eq)]
pub struct ProfileUpdated {
    pub user: Address,
    pub metadata_hash: String,
}

#[derive(Clone, Copy, Debug, PartialEq, Eq)]
pub struct CuratorRemoved {
    pub curator: Address,
}

#[derive(Clone, Copy, Debug, PartialEq, Eq)]
pub struct UserVerified {
    pub artisan: Address,
}

#[derive(Clone, Copy, Debug, PartialEq, Eq)]
pub struct ApplicationReceived {
    pub user_address: Address,
}

/// Any record that an operation can publish.
#[derive(Clone, Debug, PartialEq, Eq)]
pub enum Event {
    JobCreated(JobCreated),
    JobAssigned(JobAssigned),
    JobApplication(JobApplication),
    JobStarted(JobStarted),
    JobCancelled(JobCancelled),
    JobCompleted(JobCompleted),
    FundsReleased(FundsReleased),
    DeadlineExtended(DeadlineExtended),
    BudgetIncreased(BudgetIncreased),
    ProfileUpdated(ProfileUpdated),
    CuratorRemoved(CuratorRemoved),
    UserVerified(UserVerified),
    ApplicationReceived(ApplicationReceived),
}

/// A published record together with the contract that published it.
#[derive(Clone, Debug, PartialEq, Eq)]
pub struct ContractEvent {
    pub contract: Address,
    pub event: Event,
}

} // verus!
