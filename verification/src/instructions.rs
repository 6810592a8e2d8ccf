use vstd::prelude::*;

use crate::address::Address;
use crate::constants::DAY;
use crate::constants::NFT_STAKE_MAX_COUNT;
use crate::errors::StakingError;
use crate::policy::lemma_resolve_rate_fits;
use crate::policy::resolve_rate;
use crate::policy::spec_resolve_rate;
use crate::state::all_claimed;
use crate::state::item_reward;
use crate::state::removal_reward;
use crate::state::total_claim;
use crate::state::GlobalPool;
use crate::state::RateModel;
use crate::state::StakedNFT;
use crate::state::UserPool;

verus! {

/// Whether every rate fits the signed per-day field an item snapshots it
/// into.
pub open spec fn rates_fit(rates: Seq<u64>) -> bool {
    forall|i: int| 0 <= i < rates.len() ==> rates[i] <= i64::MAX
}

/// Whether a proposed reward schedule is acceptable: parallel arrays pair
/// up and every rate fits an item's signed field.
pub open spec fn valid_schedule(
    trait_rates: Seq<u64>,
    trait_names: Seq<String>,
    normal_rate: u64,
    lock_durations: Seq<u8>,
    lock_rates: Seq<u64>,
) -> bool {
    &&& trait_names.len() == trait_rates.len()
    &&& lock_durations.len() == lock_rates.len()
    &&& rates_fit(trait_rates)
    &&& normal_rate <= i64::MAX
    &&& rates_fit(lock_rates)
}

fn check_rates_fit(rates: &Vec<u64>) -> (ok: bool)
    ensures
        ok == rates_fit(rates@),
{
    let mut i: usize = 0;
    while i < rates.len()
        invariant
            0 <= i <= rates@.len(),
            forall|k: int| 0 <= k < i ==> rates@[k] <= i64::MAX,
        decreases rates@.len() - i,
    {
        if rates[i] > i64::MAX as u64 {
            return false;
        }
        i += 1;
    }
    true
}

/// Builds a fresh rate table administered by `admin`, with no items staked
/// yet. A schedule whose parallel arrays do not pair up, or holding a rate
/// too large to snapshot, is refused whole.
pub fn initialize_global(
    admin: Address,
    global_name: String,
    nft_creator: Address,
    reward_token_mint: Address,
    trait_rates: Vec<u64>,
    trait_names: Vec<String>,
    normal_rate: u64,
    lock_durations: Vec<u8>,
    lock_rates: Vec<u64>,
    custodial: bool,
) -> (result: Result<GlobalPool, StakingError>)
    ensures
        valid_schedule(trait_rates@, trait_names@, normal_rate, lock_durations@, lock_rates@)
            ==> result == Ok::<GlobalPool, StakingError>(
            (GlobalPool {
                name: global_name,
                admin,
                nft_creator,
                reward_token_mint,
                total_amount: 0u64,
                trait_rates,
                trait_names,
                normal_rate,
                lock_durations,
                lock_rates,
                custodial,
            }),
        ),
        !valid_schedule(trait_rates@, trait_names@, normal_rate, lock_durations@, lock_rates@)
            ==> result == Err::<GlobalPool, StakingError>(StakingError::InvalidConfiguration),
        result is Ok ==> result->Ok_0.wf(),
{
    if trait_names.len() != trait_rates.len() || lock_durations.len() != lock_rates.len() {
        return Err(StakingError::InvalidConfiguration);
    }
    if !check_rates_fit(&trait_rates) || normal_rate > i64::MAX as u64 || !check_rates_fit(
        &lock_rates,
    ) {
        return Err(StakingError::InvalidConfiguration);
    }
    Ok(
        GlobalPool {
            name: global_name,
            admin,
            nft_creator,
            reward_token_mint,
            total_amount: 0,
            trait_rates,
            trait_names,
            normal_rate,
            lock_durations,
            lock_rates,
            custodial,
        },
    )
}

/// Hands the table to a new admin. Only the current admin may do so.
pub fn update_admin(global: &mut GlobalPool, caller: Address, new_admin: Address) -> (result:
    Result<(), StakingError>)
    ensures
        caller != old(global).admin ==> result == Err::<(), StakingError>(
            StakingError::AuthorizationError,
        ) && *final(global) == *old(global),
        caller == old(global).admin ==> result == Ok::<(), StakingError>(()) && *final(global)
            == (GlobalPool { admin: new_admin, ..*old(global) }),
{
    if caller != global.admin {
        return Err(StakingError::AuthorizationError);
    }
    global.admin = new_admin;
    Ok(())
}

/// Replaces the table's schedule and custody settings. Only the admin may
/// edit; the name, the admin and the running total of staked items stay as
/// they are, and items already staked are untouched, since their rate was
/// snapshotted at stake time.
pub fn update_global(
    global: &mut GlobalPool,
    caller: Address,
    nft_creator: Address,
    reward_token_mint: Address,
    trait_rates: Vec<u64>,
    trait_names: Vec<String>,
    normal_rate: u64,
    lock_durations: Vec<u8>,
    lock_rates: Vec<u64>,
    custodial: bool,
) -> (result: Result<(), StakingError>)
    ensures
        result is Err ==> *final(global) == *old(global),
        caller != old(global).admin ==> result == Err::<(), StakingError>(
            StakingError::AuthorizationError,
        ),
        caller == old(global).admin && !valid_schedule(
            trait_rates@,
            trait_names@,
            normal_rate,
            lock_durations@,
            lock_rates@,
        ) ==> result == Err::<(), StakingError>(StakingError::InvalidConfiguration),
        caller == old(global).admin && valid_schedule(
            trait_rates@,
            trait_names@,
            normal_rate,
            lock_durations@,
            lock_rates@,
        ) ==> result == Ok::<(), StakingError>(()) && *final(global) == (GlobalPool {
            nft_creator,
            reward_token_mint,
            trait_rates,
            trait_names,
            normal_rate,
            lock_durations,
            lock_rates,
            custodial,
            ..*old(global)
        }),
        old(global).wf() ==> final(global).wf(),
{
    if caller != global.admin {
        return Err(StakingError::AuthorizationError);
    }
    if trait_names.len() != trait_rates.len() || lock_durations.len() != lock_rates.len() {
        return Err(StakingError::InvalidConfiguration);
    }
    if !check_rates_fit(&trait_rates) || normal_rate > i64::MAX as u64 || !check_rates_fit(
        &lock_rates,
    ) {
        return Err(StakingError::InvalidConfiguration);
    }
    global.nft_creator = nft_creator;
    global.reward_token_mint = reward_token_mint;
    global.trait_rates = trait_rates;
    global.trait_names = trait_names;
    global.normal_rate = normal_rate;
    global.lock_durations = lock_durations;
    global.lock_rates = lock_rates;
    global.custodial = custodial;
    Ok(())
}

/// Opens an empty ledger bound to its owner. The runtime creates the
/// backing account once per owner; this builds its initial contents.
pub fn initialize_fixed_pool(owner: Address) -> (pool: UserPool)
    ensures
        pool.wf(),
        pool.owner == owner,
        pool.items@.len() == 0,
        pool.reward_time == 0,
        pool.pending_reward == 0,
{
    UserPool { owner, items: Vec::new(), reward_time: 0, pending_reward: 0 }
}

/// The vault-side gate of a manual payout: the amount must not exceed what
/// the vault holds. The transfer itself is the runtime's work.
pub fn withdraw_reward(vault_balance: u64, amount: u64) -> (result: Result<u64, StakingError>)
    ensures
        amount <= vault_balance ==> result == Ok::<u64, StakingError>(amount),
        amount > vault_balance ==> result == Err::<u64, StakingError>(
            StakingError::InsufficientVaultBalance,
        ),
{
    if amount > vault_balance {
        return Err(StakingError::InsufficientVaultBalance);
    }
    Ok(amount)
}

/// The item a stake at time `now` creates: both checkpoints start at `now`,
/// the release time lies `lock_period` days ahead, and the rate is
/// snapshotted from the table as it reads at this moment.
pub open spec fn staked_item(
    global: GlobalPool,
    nft_mint: Address,
    model: RateModel,
    role: Seq<char>,
    lock_period: u8,
    now: i64,
) -> StakedNFT {
    StakedNFT {
        nft_addr: nft_mint,
        stake_time: now,
        reward_time: now,
        lock_time: ((now as int) + (DAY as int) * (lock_period as int)) as i64,
        rate: spec_resolve_rate(global, model, role, lock_period) as i64,
        model,
    }
}

/// Stakes `nft_mint` into `owner`'s ledger at time `now`. The collection
/// check is the metadata oracle's verdict, handed in as `creator_verified`;
/// a negative verdict refuses the stake. The stake is also refused when the
/// caller is not the ledger's owner, the ledger is full, or the identity is
/// already staked — each refusal leaves ledger and table untouched. On
/// success the new item, with the rate the policy resolves right now, sits
/// at the end of the ledger and the table's running total grows by one.
pub fn stake_nft_to_fixed(
    global: &mut GlobalPool,
    pool: &mut UserPool,
    owner: Address,
    nft_mint: Address,
    creator_verified: bool,
    lock_period: u8,
    role: &String,
    model: RateModel,
    now: i64,
) -> (result: Result<(), StakingError>)
    requires
        old(global).wf(),
        old(pool).wf(),
        owner == old(pool).owner && creator_verified && old(pool).items@.len()
            < NFT_STAKE_MAX_COUNT && !old(pool).has_item(nft_mint) ==> {
            &&& (now as int) + (DAY as int) * (lock_period as int) <= i64::MAX
            &&& old(global).total_amount < u64::MAX
        },
    ensures
        final(global).wf(),
        final(pool).wf(),
        final(pool).owner == old(pool).owner,
        result is Err ==> *final(global) == *old(global) && *final(pool) == *old(pool),
        owner != old(pool).owner ==> result == Err::<(), StakingError>(
            StakingError::AuthorizationError,
        ),
        owner == old(pool).owner && !creator_verified ==> result == Err::<(), StakingError>(
            StakingError::MetadataVerificationError,
        ),
        owner == old(pool).owner && creator_verified && old(pool).items@.len()
            >= NFT_STAKE_MAX_COUNT ==> result == Err::<(), StakingError>(
            StakingError::CapacityExceeded,
        ),
        owner == old(pool).owner && creator_verified && old(pool).items@.len()
            < NFT_STAKE_MAX_COUNT && old(pool).has_item(nft_mint) ==> result == Err::<
            (),
            StakingError,
        >(StakingError::DuplicateItem),
        owner == old(pool).owner && creator_verified && old(pool).items@.len()
            < NFT_STAKE_MAX_COUNT && !old(pool).has_item(nft_mint) ==> {
            &&& result == Ok::<(), StakingError>(())
            &&& final(pool).items@ == old(pool).items@.push(
                staked_item(*old(global), nft_mint, model, role@, lock_period, now),
            )
            &&& final(pool).reward_time == old(pool).reward_time
            &&& final(pool).pending_reward == old(pool).pending_reward
            &&& *final(global) == (GlobalPool {
                total_amount: (old(global).total_amount + 1) as u64,
                ..*old(global)
            })
        },
{
    if owner != pool.owner {
        return Err(StakingError::AuthorizationError);
    }
    if !creator_verified {
        return Err(StakingError::MetadataVerificationError);
    }
    if pool.item_count() >= NFT_STAKE_MAX_COUNT {
        return Err(StakingError::CapacityExceeded);
    }
    let mut index: usize = 0;
    while index < pool.items.len() && pool.items[index].nft_addr != nft_mint
        invariant
            *pool == *old(pool),
            0 <= index <= pool.items@.len(),
            forall|k: int| 0 <= k < index ==> pool.items@[k].nft_addr != nft_mint,
        decreases pool.items@.len() - index,
    {
        index += 1;
    }
    if index < pool.items.len() {
        return Err(StakingError::DuplicateItem);
    }
    proof {
        lemma_resolve_rate_fits(*global, model, role@, lock_period);
    }
    let rate = resolve_rate(global, model, role, lock_period);
    let lock_time = now + DAY * (lock_period as i64);
    let item = StakedNFT {
        nft_addr: nft_mint,
        stake_time: now,
        reward_time: now,
        lock_time,
        rate,
        model,
    };
    pool.add_nft(item);
    global.total_amount = global.total_amount + 1;
    Ok(())
}

/// Whether an unstake of `nft_mint` by `owner` at time `now` goes through:
/// the caller owns the ledger, the item is present, and a lock-model item
/// has reached its release time.
pub open spec fn unstake_succeeds(
    pool: UserPool,
    owner: Address,
    nft_mint: Address,
    now: i64,
) -> bool {
    &&& owner == pool.owner
    &&& exists|i: int|
        0 <= i < pool.items@.len() && pool.items@[i].nft_addr == nft_mint && (pool.items@[i].model
            == RateModel::Lock ==> now >= pool.items@[i].lock_time)
}

/// Unstakes `nft_mint` from `owner`'s ledger: banks the item's reward,
/// swap-removes its slot, and lowers the table's running total by one. Any
/// refusal — wrong owner, absent identity, or a lock not yet released —
/// leaves ledger and table untouched.
pub fn withdraw_nft_from_fixed(
    global: &mut GlobalPool,
    pool: &mut UserPool,
    owner: Address,
    nft_mint: Address,
    now: i64,
) -> (result: Result<(), StakingError>)
    requires
        old(global).wf(),
        old(pool).wf(),
        owner == old(pool).owner ==> forall|i: int|
            0 <= i < old(pool).items@.len() && old(pool).items@[i].nft_addr == nft_mint ==> {
                &&& now >= old(pool).reward_time
                &&& now >= old(pool).items@[i].stake_time
                &&& old(pool).pending_reward + removal_reward(
                    old(pool).items@[i],
                    old(pool).reward_time as int,
                    now as int,
                ) <= u64::MAX
            },
        unstake_succeeds(*old(pool), owner, nft_mint, now) ==> old(global).total_amount >= 1,
    ensures
        final(global).wf(),
        final(pool).wf(),
        final(pool).owner == old(pool).owner,
        final(pool).reward_time == old(pool).reward_time,
        result is Err ==> *final(global) == *old(global) && *final(pool) == *old(pool),
        owner != old(pool).owner ==> result == Err::<(), StakingError>(
            StakingError::AuthorizationError,
        ),
        owner == old(pool).owner && !old(pool).has_item(nft_mint) ==> result == Err::<
            (),
            StakingError,
        >(StakingError::NotFound),
        owner == old(pool).owner ==> forall|i: int|
            0 <= i < old(pool).items@.len() && old(pool).items@[i].nft_addr == nft_mint ==> {
                let item = old(pool).items@[i];
                let banked = removal_reward(item, old(pool).reward_time as int, now as int);
                if item.model == RateModel::Lock && now < item.lock_time {
                    result == Err::<(), StakingError>(StakingError::LockedError)
                } else {
                    &&& result == Ok::<(), StakingError>(())
                    &&& final(pool).items@ == old(pool).items@.update(
                        i,
                        old(pool).items@.last(),
                    ).drop_last()
                    &&& final(pool).pending_reward == old(pool).pending_reward + banked
                    &&& *final(global) == (GlobalPool {
                        total_amount: (old(global).total_amount - 1) as u64,
                        ..*old(global)
                    })
                }
            },
{
    let result = pool.remove_nft(owner, nft_mint, now);
    match result {
        Ok(_) => {
            proof {
                if !unstake_succeeds(*old(pool), owner, nft_mint, now) {
                    assert(old(pool).has_item(nft_mint));
                    let i = choose|i: int|
                        0 <= i < old(pool).items@.len() && old(pool).items@[i].nft_addr
                            == nft_mint;
                    assert(old(pool).items@[i].model == RateModel::Lock && now < old(
                        pool,
                    ).items@[i].lock_time);
                    assert(false);
                }
            }
            global.total_amount = global.total_amount - 1;
            Ok(())
        },
        Err(e) => Err(e),
    }
}

/// Claims the reward of one staked item and gates it against the vault: a
/// payout larger than `vault_balance` is refused with the ledger untouched,
/// so the runtime's transfer can never be owed from an already-moved
/// checkpoint. An absent identity pays 0.
pub fn claim_reward(
    pool: &mut UserPool,
    owner: Address,
    nft_mint: Address,
    now: i64,
    vault_balance: u64,
) -> (result: Result<u64, StakingError>)
    requires
        old(pool).wf(),
        owner == old(pool).owner ==> forall|i: int|
            0 <= i < old(pool).items@.len() && old(pool).items@[i].nft_addr == nft_mint ==> {
                &&& now >= old(pool).items@[i].stake_time
                &&& now >= old(pool).items@[i].reward_time
                &&& item_reward(old(pool).items@[i], now as int) <= u64::MAX
            },
    ensures
        final(pool).wf(),
        final(pool).owner == old(pool).owner,
        final(pool).reward_time == old(pool).reward_time,
        final(pool).pending_reward == old(pool).pending_reward,
        result is Err ==> *final(pool) == *old(pool),
        owner != old(pool).owner ==> result == Err::<u64, StakingError>(
            StakingError::AuthorizationError,
        ),
        owner == old(pool).owner && !old(pool).has_item(nft_mint) ==> result == Ok::<
            u64,
            StakingError,
        >(0) && *final(pool) == *old(pool),
        owner == old(pool).owner ==> forall|i: int|
            0 <= i < old(pool).items@.len() && old(pool).items@[i].nft_addr == nft_mint ==> {
                let item = old(pool).items@[i];
                let reward = item_reward(item, now as int);
                if vault_balance < reward {
                    result == Err::<u64, StakingError>(StakingError::InsufficientVaultBalance)
                } else {
                    &&& result == Ok::<u64, StakingError>(reward as u64)
                    &&& final(pool).items@ == old(pool).items@.update(
                        i,
                        StakedNFT { reward_time: now, ..item },
                    )
                }
            },
{
    if owner != pool.owner {
        return Err(StakingError::AuthorizationError);
    }
    let reward = pool.preview_claim(nft_mint, now);
    if vault_balance < reward {
        return Err(StakingError::InsufficientVaultBalance);
    }
    pool.claim_reward(owner, nft_mint, now)
}

/// The aggregate claim, gated against the vault: pays every item's accrual
/// plus the banked `pending_reward`, or refuses with the ledger untouched
/// when the vault cannot cover the total.
pub fn claim_reward_all(pool: &mut UserPool, owner: Address, now: i64, vault_balance: u64) -> (result:
    Result<u64, StakingError>)
    requires
        old(pool).wf(),
        owner == old(pool).owner ==> (forall|i: int|
            0 <= i < old(pool).items@.len() ==> now >= old(pool).items@[i].stake_time && now >= old(
                pool,
            ).items@[i].reward_time) && total_claim(*old(pool), now as int) <= u64::MAX,
    ensures
        final(pool).wf(),
        final(pool).owner == old(pool).owner,
        result is Err ==> *final(pool) == *old(pool),
        owner != old(pool).owner ==> result == Err::<u64, StakingError>(
            StakingError::AuthorizationError,
        ),
        owner == old(pool).owner && vault_balance < total_claim(*old(pool), now as int) ==> result
            == Err::<u64, StakingError>(StakingError::InsufficientVaultBalance),
        owner == old(pool).owner && vault_balance >= total_claim(*old(pool), now as int) ==> {
            &&& result == Ok::<u64, StakingError>(total_claim(*old(pool), now as int) as u64)
            &&& final(pool).items@ == all_claimed(old(pool).items@, now)
            &&& final(pool).reward_time == now
            &&& final(pool).pending_reward == 0
        },
{
    if owner != pool.owner {
        return Err(StakingError::AuthorizationError);
    }
    let total = pool.preview_claim_all(now);
    if vault_balance < total {
        return Err(StakingError::InsufficientVaultBalance);
    }
    pool.claim_reward_all(now)
}

/// Whether a ledger may be closed and its backing storage reclaimed:
/// only once it holds no items.
pub fn close_user_fixed_pool(pool: &UserPool) -> (can_close: bool)
    ensures
        can_close == (pool.items@.len() == 0),
{
    pool.items.len() == 0
}

} // verus!
