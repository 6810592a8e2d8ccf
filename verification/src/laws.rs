use vstd::prelude::*;

use crate::address::Address;
use crate::constants::accrued;
use crate::constants::DAY;
use crate::constants::NFT_STAKE_MAX_COUNT;
use crate::instructions::staked_item;
use crate::policy::lemma_resolve_rate_fits;
use crate::policy::spec_resolve_rate;
use crate::state::all_claimed;
use crate::state::basis_time;
use crate::state::item_reward;
use crate::state::reward_upto;
use crate::state::total_claim;
use crate::state::GlobalPool;
use crate::state::RateModel;
use crate::state::StakedNFT;
use crate::state::UserPool;

verus! {

/// Law: a well-formed ledger never holds fewer than zero nor more than
/// the capacity's worth of items. Every operation's contract keeps the
/// ledger well formed, so this bound holds at all times.
pub proof fn lemma_count_within_capacity(pool: UserPool)
    requires
        pool.wf(),
    ensures
        0 <= pool.items@.len() <= NFT_STAKE_MAX_COUNT,
{
}

/// Law: within one well-formed ledger, staked item identities are
/// pairwise distinct.
pub proof fn lemma_identities_distinct(pool: UserPool, i: int, j: int)
    requires
        pool.wf(),
        0 <= i < pool.items@.len(),
        0 <= j < pool.items@.len(),
        i != j,
    ensures
        pool.items@[i].nft_addr != pool.items@[j].nft_addr,
{
}

proof fn lemma_zero_rewards_sum_to_zero(items: Seq<StakedNFT>, now: int, n: int)
    requires
        0 <= n <= items.len(),
        forall|i: int| 0 <= i < items.len() ==> item_reward(items[i], now) == 0,
    ensures
        reward_upto(items, now, n) == 0,
    decreases n,
{
    if n > 0 {
        lemma_zero_rewards_sum_to_zero(items, now, n - 1);
    }
}

/// Law: an aggregate claim run immediately after another, with no time
/// elapsed, pays nothing. `after` is the state the first claim leaves
/// behind — every checkpoint at `now` and the bank empty — so the second
/// claim finds no whole day accrued and nothing banked.
pub proof fn lemma_claim_all_twice_pays_zero(pool: UserPool, after: UserPool, now: i64)
    requires
        pool.wf(),
        forall|i: int| 0 <= i < pool.items@.len() ==> pool.items@[i].stake_time <= now,
        after.items@ == all_claimed(pool.items@, now),
        after.pending_reward == 0,
    ensures
        total_claim(after, now as int) == 0,
{
    let claimed = all_claimed(pool.items@, now);
    assert forall|i: int| 0 <= i < claimed.len() implies item_reward(claimed[i], now as int)
        == 0 by {
        assert(claimed[i] == (StakedNFT { reward_time: now, ..pool.items@[i] }));
        assert(basis_time(now as int, claimed[i].stake_time as int) == now as int);
    }
    lemma_zero_rewards_sum_to_zero(claimed, now as int, claimed.len() as int);
}

/// Law: the rate in force when an item is staked is snapshotted into the
/// item, and every later reward of the item is a function of that snapshot
/// alone. Editing the table after the stake — its flat rate or any other
/// entry — appears nowhere in the item's reward.
pub proof fn lemma_rate_snapshot(
    global_at_stake: GlobalPool,
    nft_mint: Address,
    model: RateModel,
    role: Seq<char>,
    lock_period: u8,
    stake_now: i64,
    claim_now: int,
)
    requires
        global_at_stake.wf(),
        (stake_now as int) + (DAY as int) * (lock_period as int) <= i64::MAX,
    ensures
        ({
            let item = staked_item(global_at_stake, nft_mint, model, role, lock_period, stake_now);
            &&& item.rate == spec_resolve_rate(global_at_stake, model, role, lock_period)
            &&& item_reward(item, claim_now) == accrued(
                spec_resolve_rate(global_at_stake, model, role, lock_period),
                stake_now as int,
                claim_now,
            )
        }),
{
    lemma_resolve_rate_fits(global_at_stake, model, role, lock_period);
}

} // verus!
