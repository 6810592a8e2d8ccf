use nft_staking::claim_reward;
use nft_staking::claim_reward_all;
use nft_staking::initialize_fixed_pool;
use nft_staking::initialize_global;
use nft_staking::stake_nft_to_fixed;
use nft_staking::withdraw_nft_from_fixed;
use nft_staking::Address;
use nft_staking::GlobalPool;
use nft_staking::RateModel;
use nft_staking::StakingError;
use nft_staking::UserPool;

const DAY: i64 = 86400;
const VAULT: u64 = 1_000_000_000;

fn addr(n: u64) -> Address {
    Address::new(n, 0, 0, 0)
}

fn flat_table(normal_rate: u64) -> GlobalPool {
    initialize_global(
        addr(1),
        String::from("main"),
        addr(9),
        addr(10),
        Vec::new(),
        Vec::new(),
        normal_rate,
        Vec::new(),
        Vec::new(),
        false,
    )
    .unwrap()
}

#[test]
fn normal_stake_claim_then_claim_all() {
    let owner = addr(2);
    let mint = addr(3);
    let mut global = flat_table(100);
    let mut pool = initialize_fixed_pool(owner);
    let role = String::new();

    stake_nft_to_fixed(
        &mut global,
        &mut pool,
        owner,
        mint,
        true,
        0,
        &role,
        RateModel::Normal,
        0,
    )
    .unwrap();
    assert_eq!(pool.items.len(), 1);
    assert_eq!(pool.items[0].rate, 100);
    assert_eq!(global.total_amount, 1);

    // Two days later: 100 per day.
    let paid = claim_reward(&mut pool, owner, mint, 2 * DAY, VAULT).unwrap();
    assert_eq!(paid, 200);
    assert_eq!(pool.items[0].reward_time, 2 * DAY);

    // One more day: the aggregate claim pays the fresh day only.
    let total = claim_reward_all(&mut pool, owner, 3 * DAY, VAULT).unwrap();
    assert_eq!(total, 100);
    assert_eq!(pool.reward_time, 3 * DAY);
    assert_eq!(pool.pending_reward, 0);
}

#[test]
fn claim_all_twice_pays_zero_the_second_time() {
    let owner = addr(2);
    let mut global = flat_table(250);
    let mut pool = initialize_fixed_pool(owner);
    let role = String::new();

    for n in 0..4u64 {
        stake_nft_to_fixed(
            &mut global,
            &mut pool,
            owner,
            addr(100 + n),
            true,
            0,
            &role,
            RateModel::Normal,
            0,
        )
        .unwrap();
    }

    let first = claim_reward_all(&mut pool, owner, 5 * DAY, VAULT).unwrap();
    assert_eq!(first, 4 * 250 * 5);
    let second = claim_reward_all(&mut pool, owner, 5 * DAY, VAULT).unwrap();
    assert_eq!(second, 0);
}

#[test]
fn reward_rounds_down_to_whole_days() {
    let owner = addr(2);
    let mint = addr(3);
    let mut global = flat_table(100);
    let mut pool = initialize_fixed_pool(owner);
    let role = String::new();

    stake_nft_to_fixed(
        &mut global,
        &mut pool,
        owner,
        mint,
        true,
        0,
        &role,
        RateModel::Normal,
        0,
    )
    .unwrap();

    // A day and a half: floor(100 * 129600 / 86400) = 150.
    let paid = claim_reward(&mut pool, owner, mint, DAY + DAY / 2, VAULT).unwrap();
    assert_eq!(paid, 150);
}

#[test]
fn unstake_banks_reward_into_pending() {
    let owner = addr(2);
    let mint = addr(3);
    let mut global = flat_table(100);
    let mut pool = initialize_fixed_pool(owner);
    let role = String::new();

    stake_nft_to_fixed(
        &mut global,
        &mut pool,
        owner,
        mint,
        true,
        0,
        &role,
        RateModel::Normal,
        0,
    )
    .unwrap();
    withdraw_nft_from_fixed(&mut global, &mut pool, owner, mint, 2 * DAY).unwrap();
    assert_eq!(pool.items.len(), 0);
    assert_eq!(pool.pending_reward, 200);
    assert_eq!(global.total_amount, 0);

    // The aggregate claim pays out the bank and empties it.
    let total = claim_reward_all(&mut pool, owner, 2 * DAY, VAULT).unwrap();
    assert_eq!(total, 200);
    assert_eq!(pool.pending_reward, 0);
}

#[test]
fn unstake_accrues_from_aggregate_checkpoint() {
    let owner = addr(2);
    let mint = addr(3);
    let mut global = flat_table(100);
    let mut pool = initialize_fixed_pool(owner);
    let role = String::new();

    stake_nft_to_fixed(
        &mut global,
        &mut pool,
        owner,
        mint,
        true,
        0,
        &role,
        RateModel::Normal,
        0,
    )
    .unwrap();

    // An aggregate claim at day 3 moves the ledger checkpoint.
    let total = claim_reward_all(&mut pool, owner, 3 * DAY, VAULT).unwrap();
    assert_eq!(total, 300);

    // Unstake at day 5 banks only the two days since that checkpoint.
    withdraw_nft_from_fixed(&mut global, &mut pool, owner, mint, 5 * DAY).unwrap();
    assert_eq!(pool.pending_reward, 200);
}

#[test]
fn claim_on_absent_identity_pays_zero() {
    let owner = addr(2);
    let mut pool = initialize_fixed_pool(owner);
    let paid = claim_reward(&mut pool, owner, addr(77), 5 * DAY, VAULT).unwrap();
    assert_eq!(paid, 0);
}

#[test]
fn insufficient_vault_rejects_claim_and_keeps_checkpoint() {
    let owner = addr(2);
    let mint = addr(3);
    let mut global = flat_table(100);
    let mut pool = initialize_fixed_pool(owner);
    let role = String::new();

    stake_nft_to_fixed(
        &mut global,
        &mut pool,
        owner,
        mint,
        true,
        0,
        &role,
        RateModel::Normal,
        0,
    )
    .unwrap();

    // The vault holds less than the 200 owed: the claim is refused and the
    // ledger must not move.
    let refused = claim_reward(&mut pool, owner, mint, 2 * DAY, 199);
    assert_eq!(refused, Err(StakingError::InsufficientVaultBalance));
    assert_eq!(pool.items[0].reward_time, 0);

    // With a funded vault the full amount is still owed.
    let paid = claim_reward(&mut pool, owner, mint, 2 * DAY, 200).unwrap();
    assert_eq!(paid, 200);

    // Same gate on the aggregate claim.
    let mut pool2 = initialize_fixed_pool(owner);
    stake_nft_to_fixed(
        &mut global,
        &mut pool2,
        owner,
        mint,
        true,
        0,
        &role,
        RateModel::Normal,
        0,
    )
    .unwrap();
    let refused_all = claim_reward_all(&mut pool2, owner, 2 * DAY, 199);
    assert_eq!(refused_all, Err(StakingError::InsufficientVaultBalance));
    assert_eq!(pool2.reward_time, 0);
    assert_eq!(claim_reward_all(&mut pool2, owner, 2 * DAY, 200).unwrap(), 200);
}

#[test]
fn claims_demand_the_owner() {
    let owner = addr(2);
    let stranger = addr(4);
    let mint = addr(3);
    let mut global = flat_table(100);
    let mut pool = initialize_fixed_pool(owner);
    let role = String::new();

    stake_nft_to_fixed(
        &mut global,
        &mut pool,
        owner,
        mint,
        true,
        0,
        &role,
        RateModel::Normal,
        0,
    )
    .unwrap();
    assert_eq!(
        claim_reward(&mut pool, stranger, mint, DAY, VAULT),
        Err(StakingError::AuthorizationError)
    );
    assert_eq!(
        claim_reward_all(&mut pool, stranger, DAY, VAULT),
        Err(StakingError::AuthorizationError)
    );
    assert_eq!(
        withdraw_nft_from_fixed(&mut global, &mut pool, stranger, mint, DAY),
        Err(StakingError::AuthorizationError)
    );
    assert_eq!(pool.items[0].reward_time, 0);
}

#[test]
fn pool_starts_empty_and_bound_to_its_owner() {
    let owner = addr(42);
    let pool = initialize_fixed_pool(owner);
    assert_eq!(pool.owner, owner);
    assert_eq!(pool.items.len(), 0);
    assert_eq!(pool.reward_time, 0);
    assert_eq!(pool.pending_reward, 0);

    let defaulted = UserPool::default();
    assert_eq!(defaulted.owner, Address::new(0, 0, 0, 0));
    assert_eq!(defaulted.items.len(), 0);
}
