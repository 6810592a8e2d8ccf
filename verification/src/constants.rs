use vstd::prelude::*;

verus! {

/// Seconds in one day: the unit of reward accrual. A staked item earns
/// `rate` reward tokens per full day elapsed.
pub const DAY: i64 = 86400;

/// Capacity of one owner's ledger. Insertion past this bound is rejected,
/// which keeps every scan over the ledger bounded.
pub const NFT_STAKE_MAX_COUNT: usize = 150;

/// The number of whole days' worth of reward earned at `rate` per day over
/// the span from `from` to `now`, rounded toward negative infinity.
pub open spec fn accrued(rate: int, from: int, now: int) -> int {
    rate * (now - from) / (DAY as int)
}

} // verus!
