use vstd::prelude::*;

verus! {

/// Every way an operation on the ledger or the rate table can be refused.
/// Any error aborts the operation in full: the contracts of the functions
/// that return one state that the ledger is left unchanged.
#[derive(Clone, Copy, PartialEq, Eq, Structural, Debug)]
pub enum StakingError {
    /// The caller is neither the ledger's owner nor the table's admin.
    AuthorizationError,
    /// No staked item carries the given identity.
    NotFound,
    /// An unstake of a lock-model item was attempted before its release time.
    LockedError,
    /// The ledger already holds its maximum number of items.
    CapacityExceeded,
    /// A payout was requested for more than the vault holds.
    InsufficientVaultBalance,
    /// The item's collection or creator could not be verified.
    MetadataVerificationError,
    /// A rate-table update's parallel arrays differ in length, or a rate
    /// does not fit the signed range an item stores.
    InvalidConfiguration,
    /// An item with this identity is already staked in the ledger.
    DuplicateItem,
}

impl StakingError {
    /// A short name for logs and messages.
    pub fn describe(&self) -> (s: &'static str)
    {
        match self {
            StakingError::AuthorizationError => "caller is not authorized",
            StakingError::NotFound => "no staked item has that identity",
            StakingError::LockedError => "item is locked until its release time",
            StakingError::CapacityExceeded => "the ledger is full",
            StakingError::InsufficientVaultBalance => "the vault cannot cover the payout",
            StakingError::MetadataVerificationError => "collection verification failed",
            StakingError::InvalidConfiguration => "rate schedule arrays are inconsistent",
            StakingError::DuplicateItem => "that identity is already staked",
        }
    }
}

} // verus!
