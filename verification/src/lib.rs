//! A verified staking ledger for collectible tokens.
//!
//! Each owner holds one fixed-capacity ledger of staked items. An item is
//! staked under one of three rate models (per-trait, flat, or time-locked),
//! and the reward rate in force at stake time is snapshotted into the item,
//! so later edits to the shared rate table never change an item already
//! staked. The ledger supports insertion, swap-removal with lock
//! enforcement, a per-item reward claim, and an aggregate claim, all with
//! contracts that pin down the reward arithmetic and the ledger invariants.

mod address;
mod constants;
mod errors;
mod instructions;
mod laws;
mod policy;
mod state;

pub use address::Address;
pub use constants::accrued;
pub use constants::DAY;
pub use constants::NFT_STAKE_MAX_COUNT;
pub use errors::StakingError;
pub use instructions::claim_reward;
pub use instructions::claim_reward_all;
pub use instructions::close_user_fixed_pool;
pub use instructions::initialize_fixed_pool;
pub use instructions::initialize_global;
pub use instructions::rates_fit;
pub use instructions::stake_nft_to_fixed;
pub use instructions::staked_item;
pub use instructions::unstake_succeeds;
pub use instructions::update_admin;
pub use instructions::update_global;
pub use instructions::valid_schedule;
pub use instructions::withdraw_nft_from_fixed;
pub use instructions::withdraw_reward;
pub use laws::lemma_claim_all_twice_pays_zero;
pub use laws::lemma_count_within_capacity;
pub use laws::lemma_identities_distinct;
pub use laws::lemma_rate_snapshot;
pub use policy::duration_index;
pub use policy::name_index;
pub use policy::resolve_rate;
pub use policy::spec_resolve_rate;
pub use state::all_claimed;
pub use state::basis_time;
pub use state::item_reward;
pub use state::removal_reward;
pub use state::reward_upto;
pub use state::total_claim;
pub use state::GlobalPool;
pub use state::RateModel;
pub use state::StakedNFT;
pub use state::UserPool;
