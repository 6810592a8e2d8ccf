use nft_staking::Address;
use nft_staking::RateModel;
use nft_staking::StakedNFT;
use nft_staking::StakingError;
use nft_staking::UserPool;

const DAY: i64 = 86400;

fn addr(n: u64) -> Address {
    Address::new(n, 0, 0, 0)
}

fn item(n: u64, rate: i64, staked_at: i64) -> StakedNFT {
    StakedNFT {
        nft_addr: addr(n),
        stake_time: staked_at,
        reward_time: staked_at,
        lock_time: staked_at,
        rate,
        model: RateModel::Normal,
    }
}

fn pool_with(items: &[StakedNFT]) -> UserPool {
    let mut pool = UserPool {
        owner: addr(1),
        items: Vec::new(),
        reward_time: 0,
        pending_reward: 0,
    };
    for it in items {
        pool.add_nft(*it);
    }
    pool
}

#[test]
fn add_nft_appends_in_order() {
    let pool = pool_with(&[item(10, 5, 0), item(11, 6, 0)]);
    assert_eq!(pool.item_count(), 2);
    assert_eq!(pool.items[0].nft_addr, addr(10));
    assert_eq!(pool.items[1].nft_addr, addr(11));
}

#[test]
fn remove_nft_pays_and_compacts() {
    let mut pool = pool_with(&[item(10, 5, 0), item(11, 6, 0), item(12, 7, 0)]);
    let banked = pool.remove_nft(addr(1), addr(11), 2 * DAY).unwrap();
    assert_eq!(banked, 12);
    assert_eq!(pool.pending_reward, 12);
    assert_eq!(pool.item_count(), 2);
    // The last item moved into the vacated slot.
    assert_eq!(pool.items[1].nft_addr, addr(12));
}

#[test]
fn remove_nft_refuses_a_stranger_and_an_absent_identity() {
    let mut pool = pool_with(&[item(10, 5, 0)]);
    assert_eq!(
        pool.remove_nft(addr(99), addr(10), DAY),
        Err(StakingError::AuthorizationError)
    );
    assert_eq!(
        pool.remove_nft(addr(1), addr(77), DAY),
        Err(StakingError::NotFound)
    );
    assert_eq!(pool.item_count(), 1);
}

#[test]
fn remove_nft_holds_a_lock_until_release() {
    let mut locked = item(10, 5, 0);
    locked.model = RateModel::Lock;
    locked.lock_time = 10 * DAY;
    let mut pool = pool_with(&[locked]);

    assert_eq!(
        pool.remove_nft(addr(1), addr(10), 9 * DAY),
        Err(StakingError::LockedError)
    );
    assert_eq!(pool.item_count(), 1);
    assert_eq!(pool.pending_reward, 0);

    let banked = pool.remove_nft(addr(1), addr(10), 10 * DAY).unwrap();
    assert_eq!(banked, 50);
}

#[test]
fn claim_reward_moves_only_the_claimed_checkpoint() {
    let mut pool = pool_with(&[item(10, 5, 0), item(11, 6, 0)]);
    let paid = pool.claim_reward(addr(1), addr(11), 3 * DAY).unwrap();
    assert_eq!(paid, 18);
    assert_eq!(pool.items[0].reward_time, 0);
    assert_eq!(pool.items[1].reward_time, 3 * DAY);
    assert_eq!(pool.reward_time, 0);
}

#[test]
fn claim_reward_all_sweeps_items_and_bank() {
    let mut pool = pool_with(&[item(10, 5, 0), item(11, 6, 0)]);
    pool.pending_reward = 9;
    let total = pool.claim_reward_all(2 * DAY).unwrap();
    assert_eq!(total, 5 * 2 + 6 * 2 + 9);
    assert_eq!(pool.pending_reward, 0);
    assert_eq!(pool.reward_time, 2 * DAY);
    assert_eq!(pool.items[0].reward_time, 2 * DAY);
    assert_eq!(pool.items[1].reward_time, 2 * DAY);
}

#[test]
fn claim_reward_all_on_an_empty_ledger_pays_the_bank_alone() {
    let mut pool = pool_with(&[]);
    pool.pending_reward = 4;
    assert_eq!(pool.claim_reward_all(DAY).unwrap(), 4);
    assert_eq!(pool.claim_reward_all(DAY).unwrap(), 0);
}

#[test]
fn previews_match_the_claims_they_preview() {
    let mut pool = pool_with(&[item(10, 5, 0), item(11, 6, 0)]);
    pool.pending_reward = 3;
    let single = pool.preview_claim(addr(10), 4 * DAY);
    let all = pool.preview_claim_all(4 * DAY);
    assert_eq!(single, 20);
    assert_eq!(all, 20 + 24 + 3);
    // Previews touch nothing.
    assert_eq!(pool.items[0].reward_time, 0);
    assert_eq!(pool.pending_reward, 3);
    assert_eq!(pool.claim_reward(addr(1), addr(10), 4 * DAY).unwrap(), single);
    assert_eq!(pool.preview_claim(addr(77), 4 * DAY), 0);
}

#[test]
fn range_guards_accept_the_ordinary_and_refuse_the_backward_clock() {
    let pool = pool_with(&[item(10, 5, 2 * DAY)]);
    assert!(pool.claim_fits(addr(10), 3 * DAY));
    assert!(!pool.claim_fits(addr(10), DAY));
    assert!(pool.claim_fits(addr(77), 0));
    assert!(pool.unstake_fits(addr(10), 3 * DAY));
    assert!(!pool.unstake_fits(addr(10), DAY));
    assert!(pool.claim_all_fits(3 * DAY));
    assert!(!pool.claim_all_fits(DAY));
}

#[test]
fn errors_name_themselves() {
    assert_eq!(StakingError::LockedError.describe(), "item is locked until its release time");
    assert_eq!(StakingError::CapacityExceeded.describe(), "the ledger is full");
}
