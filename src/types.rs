//! The data model shared by the registry and the marketplace.
use vstd::prelude::*;

verus! {

/// An identity on the ledger: a user account or a contract.
#[derive(Clone, Copy, Debug, PartialEq, Eq, Hash, Structural)]
pub struct Address(pub u64);

/// Role code of a plain user who posts jobs.
pub const ROLE_FINDER: u32 = 0;

/// Role code of a user who may approve artisans.
pub const ROLE_CURATOR: u32 = 1;

/// Role code of a registry administrator.
pub const ROLE_ADMIN: u32 = 2;

/// Role code of a user who may take jobs.
pub const ROLE_ARTISAN: u32 = 3;

/// The lifecycle position of a job.
///
/// `Disputed` is part of the model but no operation moves a job into it or
/// out of it.
#[derive(Clone, Copy, Debug, PartialEq, Eq, Structural)]
pub enum JobStatus {
    Open,
    Assigned,
    InProgress,
    PendingReview,
    Completed,
    Disputed,
    Cancelled,
}

impl JobStatus {
    /// A finalized job accepts no further change.
    pub open spec fn is_terminal(self) -> bool {
        self == JobStatus::Completed || self == JobStatus::Cancelled
    }

    pub fn is_finalized(&self) -> (r: bool)
        ensures
            r == self.is_terminal(),
    {
        match self {
            JobStatus::Completed | JobStatus::Cancelled => true,
            _ => false,
        }
    }
}

/// A job record, as the marketplace stores it under its id.
#[derive(Clone, Copy, Debug, PartialEq, Eq)]
pub struct Job {
    pub id: u64,
    pub finder: Address,
    pub artisan: Option<Address>,
    pub token: Address,
    /// What is held in escrow for this job.
    pub amount: i128,
    pub status: JobStatus,
    pub start_time: u64,
    pub end_time: u64,
    pub deadline: u64,
}

impl Job {
    /// The per-record invariant: a job that is `Open`, or was cancelled
    /// while open, has no artisan; a job that was assigned keeps one; escrow
    /// is never negative.
    pub open spec fn wf(self) -> bool {
        &&& (self.status == JobStatus::Open || self.status == JobStatus::Cancelled) ==> self.artisan is None
        &&& (self.status == JobStatus::Assigned || self.status == JobStatus::InProgress
            || self.status == JobStatus::PendingReview || self.status == JobStatus::Completed)
            ==> self.artisan is Some
        &&& self.amount >= 0
    }
}

/// What the registry records of a user.
#[derive(Clone, Debug, PartialEq, Eq)]
pub struct Profile {
    pub role: u32,
    pub metadata_hash: String,
    pub is_verified: bool,
    pub is_blacklisted: bool,
}

impl Profile {
    /// A field-by-field copy, known to equal `self`.
    pub fn copy(&self) -> (r: Profile)
        ensures
            r == *self,
    {
        Profile {
            role: self.role,
            metadata_hash: self.metadata_hash.clone(),
            is_verified: self.is_verified,
            is_blacklisted: self.is_blacklisted,
        }
    }

    /// May this user be matched with a job?
    pub open spec fn may_work(self) -> bool {
        self.role == ROLE_ARTISAN && !self.is_blacklisted
    }
}

/// Why a marketplace operation aborted.
#[derive(Clone, Copy, Debug, PartialEq, Eq, Structural)]
pub enum MarketError {
    /// No such job, or no profile for the candidate artisan.
    NotFound,
    AlreadyInitialized,
    NotInitialized,
    /// The acting identity did not authenticate.
    Unauthorized,
    /// Authenticated, but not the job's finder or artisan.
    NotOwner,
    /// The operation is not legal in the job's current status.
    InvalidState,
    /// The candidate is not an artisan, or is blacklisted.
    PolicyViolation,
    /// Settlement was requested before the review window elapsed.
    TimingNotElapsed,
    /// The token refused the escrow movement.
    TransferFailed,
    /// A counter or an amount would leave its integer range.
    Overflow,
}

/// Why a registry operation aborted.
#[derive(Clone, Copy, Debug, PartialEq, Eq, Structural)]
pub enum RegistryError {
    AlreadyInitialized,
    NotInitialized,
    Unauthorized,
    /// The user has no profile.
    NotFound,
    AlreadyCurator,
    NotCurator,
    /// The caller must be a curator or an admin.
    NotCuratorOrAdmin,
    /// The profile has no metadata hash yet.
    MissingMetadata,
}

} // verus!
