use vstd::prelude::*;

use crate::address::Address;
use crate::constants::{accrued, DAY, NFT_STAKE_MAX_COUNT};
use crate::errors::StakingError;

verus! {

/// How an item's reward rate was chosen at stake time.
#[derive(Clone, Copy, PartialEq, Eq, Structural, Debug)]
pub enum RateModel {
    /// The rate keyed by the item's trait role in the rate table.
    Trait,
    /// The table's flat rate.
    Normal,
    /// The rate keyed by a lock duration; the item cannot be unstaked
    /// before its release time.
    Lock,
}

/// The shared rate table: the reward schedule, the identities it is
/// administered and paid under, and the custody mode.
pub struct GlobalPool {
    /// The table's own name, used by the runtime to derive its account.
    pub name: String,
    /// Only this identity may edit the table.
    pub admin: Address,
    /// The creator whose verified signature marks an item as belonging
    /// to the authorized collection.
    pub nft_creator: Address,
    /// The token rewards are paid in.
    pub reward_token_mint: Address,
    /// Running total of items staked across all ledgers.
    pub total_amount: u64,
    /// Rates parallel to `trait_names`.
    pub trait_rates: Vec<u64>,
    /// Trait roles, parallel to `trait_rates`.
    pub trait_names: Vec<String>,
    /// The flat rate used by the `Normal` model.
    pub normal_rate: u64,
    /// Lock durations in days, parallel to `lock_rates`.
    pub lock_durations: Vec<u8>,
    /// Rates parallel to `lock_durations`.
    pub lock_rates: Vec<u64>,
    /// Whether custody is taken by transfer of ownership (`true`) or by
    /// delegated freeze (`false`).
    pub custodial: bool,
}

impl GlobalPool {
    /// The parallel arrays pair up, and every rate fits the signed field
    /// an item snapshots it into.
    pub open spec fn wf(self) -> bool {
        &&& self.trait_names@.len() == self.trait_rates@.len()
        &&& self.lock_durations@.len() == self.lock_rates@.len()
        &&& forall|i: int| 0 <= i < self.trait_rates@.len() ==> self.trait_rates@[i] <= i64::MAX
        &&& self.normal_rate <= i64::MAX
        &&& forall|i: int| 0 <= i < self.lock_rates@.len() ==> self.lock_rates@[i] <= i64::MAX
    }
}

/// One staked item: its identity and the reward bookkeeping snapshotted
/// and maintained for it.
#[derive(Clone, Copy, PartialEq, Eq, Structural, Debug)]
pub struct StakedNFT {
    /// The identity of the staked item.
    pub nft_addr: Address,
    /// When the item was staked.
    pub stake_time: i64,
    /// The item's reward checkpoint: accrual counts from this time or from
    /// `stake_time`, whichever is later.
    pub reward_time: i64,
    /// When a `Lock`-model item may be unstaked. Not meaningful under the
    /// other models.
    pub lock_time: i64,
    /// Reward units per day, fixed at stake time from the rate table.
    pub rate: i64,
    /// Which rule chose `rate`.
    pub model: RateModel,
}

impl StakedNFT {
    /// The rate was snapshotted from the unsigned schedule, and a locked
    /// item's release time never precedes its stake time.
    pub open spec fn wf(self) -> bool {
        &&& 0 <= self.rate
        &&& self.model == RateModel::Lock ==> self.stake_time <= self.lock_time
    }
}

/// The later of an item's checkpoint and its stake time: accrual never
/// reaches back before the item existed.
pub open spec fn basis_time(checkpoint: int, stake_time: int) -> int {
    if checkpoint < stake_time {
        stake_time
    } else {
        checkpoint
    }
}

/// What one claim on `item` at time `now` pays: whole days since the
/// item's own checkpoint, at the item's snapshotted rate.
pub open spec fn item_reward(item: StakedNFT, now: int) -> int {
    accrued(item.rate as int, basis_time(item.reward_time as int, item.stake_time as int), now)
}

/// What an unstake of `item` at time `now` banks: whole days since the
/// ledger's aggregate checkpoint (or the item's stake time if later), at
/// the item's snapshotted rate.
pub open spec fn removal_reward(item: StakedNFT, ledger_checkpoint: int, now: int) -> int {
    accrued(item.rate as int, basis_time(ledger_checkpoint, item.stake_time as int), now)
}

/// Whole days times rate never comes out negative when time has not run
/// backwards.
pub proof fn lemma_accrued_nonneg(rate: int, from: int, now: int)
    requires
        0 <= rate,
        from <= now,
    ensures
        0 <= accrued(rate, from, now),
{
    vstd::arithmetic::mul::lemma_mul_nonnegative(rate, now - from);
    vstd::arithmetic::div_mod::lemma_div_pos_is_pos(rate * (now - from), DAY as int);
}

/// Computes `accrued(rate, from, now)` exactly, widened so that no bound
/// on the result is owed by the caller.
fn accrue_wide(rate: i64, from: i64, now: i64) -> (r: u128)
    requires
        0 <= rate,
        from <= now,
    ensures
        r == accrued(rate as int, from as int, now as int),
        r <= (i64::MAX as int) * (u64::MAX as int) / (DAY as int),
{
    let dt: u128 = (now as i128 - from as i128) as u128;
    proof {
        vstd::arithmetic::mul::lemma_mul_upper_bound(
            rate as int,
            i64::MAX as int,
            dt as int,
            u64::MAX as int,
        );
        lemma_accrued_nonneg(rate as int, from as int, now as int);
        vstd::arithmetic::div_mod::lemma_div_is_ordered(
            (rate as int) * (dt as int),
            (i64::MAX as int) * (u64::MAX as int),
            DAY as int,
        );
    }
    let prod: u128 = (rate as u128) * dt;
    prod / (DAY as u128)
}

/// Computes `accrued(rate, from, now)` exactly, for the in-range case.
fn accrue(rate: i64, from: i64, now: i64) -> (r: u64)
    requires
        0 <= rate,
        from <= now,
        accrued(rate as int, from as int, now as int) <= u64::MAX,
    ensures
        r == accrued(rate as int, from as int, now as int),
{
    accrue_wide(rate, from, now) as u64
}

/// The sum of `item_reward` over the first `n` items.
pub open spec fn reward_upto(items: Seq<StakedNFT>, now: int, n: int) -> int
    decreases n,
{
    if n <= 0 {
        0
    } else {
        reward_upto(items, now, n - 1) + item_reward(items[n - 1], now)
    }
}

/// No term of the prefix sum is negative when every rate is non-negative
/// and no checkpoint lies in the future, so the sum grows with its length.
pub proof fn lemma_reward_upto_mono(items: Seq<StakedNFT>, now: int, n: int, m: int)
    requires
        0 <= n <= m <= items.len(),
        forall|i: int| 0 <= i < items.len() ==> 0 <= items[i].rate,
        forall|i: int|
            0 <= i < items.len() ==> now >= items[i].stake_time && now >= items[i].reward_time,
    ensures
        reward_upto(items, now, n) <= reward_upto(items, now, m),
    decreases m - n,
{
    if n < m {
        lemma_accrued_nonneg(
            items[m - 1].rate as int,
            basis_time(items[m - 1].reward_time as int, items[m - 1].stake_time as int),
            now,
        );
        lemma_reward_upto_mono(items, now, n, m - 1);
    }
}

/// What one aggregate claim at time `now` pays: every item's accrual since
/// its own checkpoint, plus the banked `pending_reward`.
pub open spec fn total_claim(pool: UserPool, now: int) -> int {
    reward_upto(pool.items@, now, pool.items@.len() as int) + pool.pending_reward
}

/// The items as an aggregate claim at time `now` leaves them: every
/// checkpoint moved to `now`, everything else untouched.
pub open spec fn all_claimed(items: Seq<StakedNFT>, now: i64) -> Seq<StakedNFT> {
    Seq::new(items.len(), |i: int| StakedNFT { reward_time: now, ..items[i] })
}

/// One owner's staking ledger: at most `NFT_STAKE_MAX_COUNT` items with
/// pairwise-distinct identities, plus the aggregate reward bookkeeping.
pub struct UserPool {
    /// The ledger's owner; every mutation demands this identity.
    pub owner: Address,
    /// The staked items. Order carries no meaning: removal swaps the last
    /// item into the vacated slot.
    pub items: Vec<StakedNFT>,
    /// When an aggregate claim last ran; unstake accrues from here.
    pub reward_time: i64,
    /// Reward banked by unstakes and not yet paid out.
    pub pending_reward: u64,
}

impl UserPool {
    /// The ledger's invariant: within capacity, identities pairwise
    /// distinct, every item well formed.
    pub open spec fn wf(self) -> bool {
        &&& self.items@.len() <= NFT_STAKE_MAX_COUNT
        &&& forall|i: int, j: int|
            0 <= i < j < self.items@.len() ==> self.items@[i].nft_addr != self.items@[j].nft_addr
        &&& forall|i: int| 0 <= i < self.items@.len() ==> self.items@[i].wf()
    }

    /// Whether some staked item carries the identity `addr`.
    pub open spec fn has_item(self, addr: Address) -> bool {
        exists|i: int| 0 <= i < self.items@.len() && self.items@[i].nft_addr == addr
    }

    /// How many items are staked.
    pub fn item_count(&self) -> (n: usize)
        ensures
            n == self.items@.len(),
    {
        self.items.len()
    }

    /// Appends a freshly staked item at the end of the ledger.
    pub fn add_nft(&mut self, item: StakedNFT)
        requires
            old(self).wf(),
            item.wf(),
            old(self).items@.len() < NFT_STAKE_MAX_COUNT,
            !old(self).has_item(item.nft_addr),
        ensures
            final(self).wf(),
            final(self).items@ == old(self).items@.push(item),
            final(self).owner == old(self).owner,
            final(self).reward_time == old(self).reward_time,
            final(self).pending_reward == old(self).pending_reward,
    {
        self.items.push(item);
    }

    /// Unstakes the item with identity `nft_mint`: banks its reward, accrued
    /// from the ledger's aggregate checkpoint, into `pending_reward`, and
    /// swap-removes its slot. A lock-model item is refused before its
    /// release time, with the ledger left untouched.
    pub fn remove_nft(&mut self, owner: Address, nft_mint: Address, now: i64) -> (result: Result<
        u64,
        StakingError,
    >)
        requires
            old(self).wf(),
            owner == old(self).owner ==> forall|i: int|
                0 <= i < old(self).items@.len() && old(self).items@[i].nft_addr == nft_mint ==> {
                    &&& now >= old(self).reward_time
                    &&& now >= old(self).items@[i].stake_time
                    &&& old(self).pending_reward + removal_reward(
                        old(self).items@[i],
                        old(self).reward_time as int,
                        now as int,
                    ) <= u64::MAX
                },
        ensures
            final(self).wf(),
            final(self).owner == old(self).owner,
            final(self).reward_time == old(self).reward_time,
            result is Err ==> *final(self) == *old(self),
            owner != old(self).owner ==> result == Err::<u64, StakingError>(
                StakingError::AuthorizationError,
            ),
            owner == old(self).owner && !old(self).has_item(nft_mint) ==> result == Err::<
                u64,
                StakingError,
            >(StakingError::NotFound),
            owner == old(self).owner ==> forall|i: int|
                0 <= i < old(self).items@.len() && old(self).items@[i].nft_addr == nft_mint ==> {
                    let item = old(self).items@[i];
                    let banked = removal_reward(item, old(self).reward_time as int, now as int);
                    if item.model == RateModel::Lock && now < item.lock_time {
                        result == Err::<u64, StakingError>(StakingError::LockedError)
                    } else {
                        &&& result == Ok::<u64, StakingError>(banked as u64)
                        &&& final(self).items@ == old(self).items@.update(
                            i,
                            old(self).items@.last(),
                        ).drop_last()
                        &&& final(self).pending_reward == old(self).pending_reward + banked
                    }
                },
    {
        if owner != self.owner {
            return Err(StakingError::AuthorizationError);
        }
        let mut index: usize = 0;
        while index < self.items.len() && self.items[index].nft_addr != nft_mint
            invariant
                *self == *old(self),
                0 <= index <= self.items@.len(),
                forall|k: int| 0 <= k < index ==> self.items@[k].nft_addr != nft_mint,
            decreases self.items@.len() - index,
        {
            index += 1;
        }
        if index == self.items.len() {
            return Err(StakingError::NotFound);
        }
        let item = self.items[index];
        if item.model == RateModel::Lock && now < item.lock_time {
            return Err(StakingError::LockedError);
        }
        let mut last_reward_time = self.reward_time;
        if last_reward_time < item.stake_time {
            last_reward_time = item.stake_time;
        }
        let reward = accrue(item.rate, last_reward_time, now);
        self.items.swap_remove(index);
        self.pending_reward = self.pending_reward + reward;
        Ok(reward)
    }

    /// Whether a claim on `nft_mint` at time `now` is in range: the item's
    /// checkpoints do not lie in the future and the payout fits the
    /// unsigned range. An unverified caller can test `claim_reward`'s
    /// precondition with this before committing to the call.
    pub fn claim_fits(&self, nft_mint: Address, now: i64) -> (ok: bool)
        requires
            self.wf(),
        ensures
            ok == forall|i: int|
                0 <= i < self.items@.len() && self.items@[i].nft_addr == nft_mint ==> {
                    &&& now >= self.items@[i].stake_time
                    &&& now >= self.items@[i].reward_time
                    &&& item_reward(self.items@[i], now as int) <= u64::MAX
                },
    {
        let mut index: usize = 0;
        while index < self.items.len() && self.items[index].nft_addr != nft_mint
            invariant
                0 <= index <= self.items@.len(),
                forall|k: int| 0 <= k < index ==> self.items@[k].nft_addr != nft_mint,
            decreases self.items@.len() - index,
        {
            index += 1;
        }
        if index == self.items.len() {
            return true;
        }
        proof {
            assert forall|i: int|
                0 <= i < self.items@.len() && self.items@[i].nft_addr == nft_mint implies i
                == index as int by {}
        }
        let item = self.items[index];
        if now < item.stake_time || now < item.reward_time {
            return false;
        }
        let mut last_reward_time = item.reward_time;
        if last_reward_time < item.stake_time {
            last_reward_time = item.stake_time;
        }
        let wide = accrue_wide(item.rate, last_reward_time, now);
        wide <= u64::MAX as u128
    }

    /// Whether an unstake of `nft_mint` at time `now` is in range: no
    /// checkpoint lies in the future and the banked total fits the
    /// unsigned range. An unverified caller can test `remove_nft`'s
    /// precondition with this before committing to the call.
    pub fn unstake_fits(&self, nft_mint: Address, now: i64) -> (ok: bool)
        requires
            self.wf(),
        ensures
            ok == forall|i: int|
                0 <= i < self.items@.len() && self.items@[i].nft_addr == nft_mint ==> {
                    &&& now >= self.reward_time
                    &&& now >= self.items@[i].stake_time
                    &&& self.pending_reward + removal_reward(
                        self.items@[i],
                        self.reward_time as int,
                        now as int,
                    ) <= u64::MAX
                },
    {
        let mut index: usize = 0;
        while index < self.items.len() && self.items[index].nft_addr != nft_mint
            invariant
                0 <= index <= self.items@.len(),
                forall|k: int| 0 <= k < index ==> self.items@[k].nft_addr != nft_mint,
            decreases self.items@.len() - index,
        {
            index += 1;
        }
        if index == self.items.len() {
            return true;
        }
        proof {
            assert forall|i: int|
                0 <= i < self.items@.len() && self.items@[i].nft_addr == nft_mint implies i
                == index as int by {}
        }
        let item = self.items[index];
        if now < self.reward_time || now < item.stake_time {
            return false;
        }
        let mut last_reward_time = self.reward_time;
        if last_reward_time < item.stake_time {
            last_reward_time = item.stake_time;
        }
        let wide = accrue_wide(item.rate, last_reward_time, now);
        (self.pending_reward as u128) + wide <= u64::MAX as u128
    }

    /// Whether the aggregate claim at time `now` is in range: no checkpoint
    /// lies in the future and the grand total fits the unsigned range. An
    /// unverified caller can test `claim_reward_all`'s precondition with
    /// this before committing to the call.
    pub fn claim_all_fits(&self, now: i64) -> (ok: bool)
        requires
            self.wf(),
        ensures
            ok == ((forall|i: int|
                0 <= i < self.items@.len() ==> now >= self.items@[i].stake_time && now
                    >= self.items@[i].reward_time) && total_claim(*self, now as int) <= u64::MAX),
    {
        let ghost all = self.items@.len() as int;
        let mut index: usize = 0;
        while index < self.items.len()
            invariant
                0 <= index <= self.items@.len(),
                forall|k: int|
                    0 <= k < index ==> now >= self.items@[k].stake_time && now
                        >= self.items@[k].reward_time,
            decreases self.items@.len() - index,
        {
            let item = self.items[index];
            if now < item.stake_time || now < item.reward_time {
                return false;
            }
            index += 1;
        }
        let mut acc: u128 = 0;
        let mut i: usize = 0;
        while i < self.items.len()
            invariant
                self.wf(),
                0 <= i <= self.items@.len(),
                all == self.items@.len() as int,
                forall|k: int|
                    0 <= k < all ==> now >= self.items@[k].stake_time && now
                        >= self.items@[k].reward_time,
                acc == reward_upto(self.items@, now as int, i as int),
                acc <= u64::MAX,
            decreases self.items@.len() - i,
        {
            let item = self.items[i];
            let mut last_reward_time = item.reward_time;
            if last_reward_time < item.stake_time {
                last_reward_time = item.stake_time;
            }
            let wide = accrue_wide(item.rate, last_reward_time, now);
            acc = acc + wide;
            if acc > u64::MAX as u128 {
                proof {
                    lemma_reward_upto_mono(self.items@, now as int, i as int + 1, all);
                }
                return false;
            }
            i += 1;
        }
        acc + (self.pending_reward as u128) <= u64::MAX as u128
    }

    /// What a claim on the item with identity `nft_mint` would pay at time
    /// `now`, without touching the ledger. An absent identity pays 0.
    pub fn preview_claim(&self, nft_mint: Address, now: i64) -> (reward: u64)
        requires
            self.wf(),
            forall|i: int|
                0 <= i < self.items@.len() && self.items@[i].nft_addr == nft_mint ==> {
                    &&& now >= self.items@[i].stake_time
                    &&& now >= self.items@[i].reward_time
                    &&& item_reward(self.items@[i], now as int) <= u64::MAX
                },
        ensures
            !self.has_item(nft_mint) ==> reward == 0,
            forall|i: int|
                0 <= i < self.items@.len() && self.items@[i].nft_addr == nft_mint ==> reward
                    == item_reward(self.items@[i], now as int),
    {
        let mut index: usize = 0;
        while index < self.items.len() && self.items[index].nft_addr != nft_mint
            invariant
                0 <= index <= self.items@.len(),
                forall|k: int| 0 <= k < index ==> self.items@[k].nft_addr != nft_mint,
            decreases self.items@.len() - index,
        {
            index += 1;
        }
        if index == self.items.len() {
            return 0;
        }
        let item = self.items[index];
        let mut last_reward_time = item.reward_time;
        if last_reward_time < item.stake_time {
            last_reward_time = item.stake_time;
        }
        accrue(item.rate, last_reward_time, now)
    }

    /// Claims the reward of the single item with identity `nft_mint`:
    /// returns what accrued since the item's own checkpoint and moves that
    /// checkpoint to `now`. An absent identity pays 0 and changes nothing;
    /// `pending_reward` and the aggregate checkpoint are never touched.
    pub fn claim_reward(&mut self, owner: Address, nft_mint: Address, now: i64) -> (result: Result<
        u64,
        StakingError,
    >)
        requires
            old(self).wf(),
            owner == old(self).owner ==> forall|i: int|
                0 <= i < old(self).items@.len() && old(self).items@[i].nft_addr == nft_mint ==> {
                    &&& now >= old(self).items@[i].stake_time
                    &&& now >= old(self).items@[i].reward_time
                    &&& item_reward(old(self).items@[i], now as int) <= u64::MAX
                },
        ensures
            final(self).wf(),
            final(self).owner == old(self).owner,
            final(self).reward_time == old(self).reward_time,
            final(self).pending_reward == old(self).pending_reward,
            final(self).items@.len() == old(self).items@.len(),
            result is Err ==> *final(self) == *old(self),
            owner != old(self).owner ==> result == Err::<u64, StakingError>(
                StakingError::AuthorizationError,
            ),
            owner == old(self).owner && !old(self).has_item(nft_mint) ==> result == Ok::<
                u64,
                StakingError,
            >(0) && *final(self) == *old(self),
            owner == old(self).owner ==> forall|i: int|
                0 <= i < old(self).items@.len() && old(self).items@[i].nft_addr == nft_mint ==> {
                    let item = old(self).items@[i];
                    &&& result == Ok::<u64, StakingError>(
                        item_reward(item, now as int) as u64,
                    )
                    &&& final(self).items@ == old(self).items@.update(
                        i,
                        StakedNFT { reward_time: now, ..item },
                    )
                },
    {
        if owner != self.owner {
            return Err(StakingError::AuthorizationError);
        }
        let mut index: usize = 0;
        while index < self.items.len() && self.items[index].nft_addr != nft_mint
            invariant
                *self == *old(self),
                0 <= index <= self.items@.len(),
                forall|k: int| 0 <= k < index ==> self.items@[k].nft_addr != nft_mint,
            decreases self.items@.len() - index,
        {
            index += 1;
        }
        if index == self.items.len() {
            return Ok(0);
        }
        let item = self.items[index];
        let mut last_reward_time = item.reward_time;
        if last_reward_time < item.stake_time {
            last_reward_time = item.stake_time;
        }
        let reward = accrue(item.rate, last_reward_time, now);
        self.items[index] = StakedNFT { reward_time: now, ..item };
        Ok(reward)
    }

    /// What an aggregate claim would pay at time `now`, without touching
    /// the ledger.
    pub fn preview_claim_all(&self, now: i64) -> (total: u64)
        requires
            self.wf(),
            forall|i: int|
                0 <= i < self.items@.len() ==> now >= self.items@[i].stake_time && now
                    >= self.items@[i].reward_time,
            total_claim(*self, now as int) <= u64::MAX,
        ensures
            total == total_claim(*self, now as int),
    {
        let ghost all = self.items@.len() as int;
        let mut total: u64 = 0;
        let mut index: usize = 0;
        while index < self.items.len()
            invariant
                self.wf(),
                0 <= index <= self.items@.len(),
                all == self.items@.len() as int,
                forall|i: int|
                    0 <= i < self.items@.len() ==> now >= self.items@[i].stake_time && now
                        >= self.items@[i].reward_time,
                total_claim(*self, now as int) <= u64::MAX,
                total == reward_upto(self.items@, now as int, index as int),
            decreases self.items@.len() - index,
        {
            let item = self.items[index];
            let mut last_reward_time = item.reward_time;
            if last_reward_time < item.stake_time {
                last_reward_time = item.stake_time;
            }
            proof {
                lemma_reward_upto_mono(self.items@, now as int, 0, index as int);
                lemma_reward_upto_mono(self.items@, now as int, index as int + 1, all);
            }
            let reward = accrue(item.rate, last_reward_time, now);
            total = total + reward;
            index += 1;
        }
        total + self.pending_reward
    }

    /// The aggregate claim: pays every item's accrual since its own
    /// checkpoint plus the banked `pending_reward`, moves every checkpoint
    /// and the aggregate checkpoint to `now`, and empties the bank.
    pub fn claim_reward_all(&mut self, now: i64) -> (result: Result<u64, StakingError>)
        requires
            old(self).wf(),
            forall|i: int|
                0 <= i < old(self).items@.len() ==> now >= old(self).items@[i].stake_time && now
                    >= old(self).items@[i].reward_time,
            total_claim(*old(self), now as int) <= u64::MAX,
        ensures
            final(self).wf(),
            result == Ok::<u64, StakingError>(total_claim(*old(self), now as int) as u64),
            final(self).items@ == all_claimed(old(self).items@, now),
            final(self).owner == old(self).owner,
            final(self).reward_time == now,
            final(self).pending_reward == 0,
    {
        let ghost all = old(self).items@.len() as int;
        let mut total: u64 = 0;
        let mut index: usize = 0;
        while index < self.items.len()
            invariant
                old(self).wf(),
                0 <= index <= old(self).items@.len(),
                all == old(self).items@.len() as int,
                self.items@.len() == old(self).items@.len(),
                self.owner == old(self).owner,
                self.reward_time == old(self).reward_time,
                self.pending_reward == old(self).pending_reward,
                forall|k: int| index <= k < all ==> self.items@[k] == old(self).items@[k],
                forall|k: int|
                    0 <= k < index ==> self.items@[k] == (StakedNFT {
                        reward_time: now,
                        ..old(self).items@[k]
                    }),
                forall|i: int|
                    0 <= i < all ==> now >= old(self).items@[i].stake_time && now >= old(
                        self,
                    ).items@[i].reward_time,
                total_claim(*old(self), now as int) <= u64::MAX,
                total == reward_upto(old(self).items@, now as int, index as int),
            decreases all - index,
        {
            let item = self.items[index];
            let mut last_reward_time = item.reward_time;
            if last_reward_time < item.stake_time {
                last_reward_time = item.stake_time;
            }
            proof {
                lemma_reward_upto_mono(old(self).items@, now as int, 0, index as int);
                lemma_reward_upto_mono(old(self).items@, now as int, index as int + 1, all);
            }
            let reward = accrue(item.rate, last_reward_time, now);
            total = total + reward;
            self.items[index] = StakedNFT { reward_time: now, ..item };
            index += 1;
        }
        total = total + self.pending_reward;
        self.pending_reward = 0;
        self.reward_time = now;
        proof {
            assert(self.items@ =~= all_claimed(old(self).items@, now));
        }
        Ok(total)
    }
}

impl Default for UserPool {
    /// An empty ledger bound to the all-zero identity.
    fn default() -> (pool: UserPool)
        ensures
            pool.wf(),
            pool.owner == (Address { w0: 0u64, w1: 0u64, w2: 0u64, w3: 0u64 }),
            pool.items@.len() == 0,
            pool.reward_time == 0,
            pool.pending_reward == 0,
    {
        UserPool { owner: Address::default(), items: Vec::new(), reward_time: 0, pending_reward: 0 }
    }
}

} // verus!
