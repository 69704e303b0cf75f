use vstd::prelude::*;
use crate::address::Address;

verus! {

/// Number of parallel rate limiters per token.
pub const BUS_COUNT: u64 = 8;

/// Length of an emission epoch, in seconds.
pub const EPOCH_DURATION: i64 = 60;

/// Basis points that make up a whole.
pub const BASIS_POINTS: u64 = 10000;

/// The rule that caps the reward of a single hash, by protocol revision.
#[derive(Clone, Copy, Debug, PartialEq, Eq, Structural)]
pub enum RewardCap {
    /// Earlier revision: every hash is capped at a fixed amount.
    FixedPerHash { limit: u64 },
    /// Current revision: every hash is capped at the bus's share of the
    /// epoch's emission.
    EpochScaled,
}

/// A token identity with a fixed-point ratio, kept for the crafting
/// subsystem; the ratio is carried as the bits of an IEEE double.
#[derive(Clone, Copy, Debug)]
pub struct Ingredient {
    pub mint: Address,
    pub ratio_bits: u64,
}

/// Emission parameters of one token.
#[derive(Clone, Copy, Debug)]
pub struct Config {
    pub mint: Address,
    pub migration_mint: Address,
    pub max_supply: u64,
    pub base_reward_rate: u64,
    pub last_reset_at: i64,
    pub min_difficulty: u64,
    pub total_balance: u64,
    pub total_rewards: u64,
    pub initial_epoch_rewards: u64,
    pub current_epoch: u64,
    pub schedule_epochs: u64,
    pub decay_basis_points: u64,
    pub wrapped_ingredient: Ingredient,
    pub burned_ingredient: Ingredient,
    pub reward_cap: RewardCap,
}

impl Config {
    /// The decay rate is a fraction of a whole.
    pub open spec fn wf(&self) -> bool {
        self.decay_basis_points <= BASIS_POINTS
    }
}

/// One of the per-epoch emission limiters of a token.
#[derive(Clone, Copy, Debug, PartialEq, Eq, Structural)]
pub struct Bus {
    pub id: u64,
    pub rewards: u64,
    pub theoretical_rewards: u64,
}

/// A miner's claimable balance and lifetime statistics.
#[derive(Clone, Copy, Debug)]
pub struct Proof {
    pub authority: Address,
    pub balance: u64,
    pub last_stake_at: i64,
    pub miner: Address,
    pub total_hashes: u64,
    pub total_rewards: u64,
    pub bump: u64,
}

/// What a successful mine reports.
#[derive(Clone, Copy, Debug, PartialEq, Eq, Structural)]
pub struct MineEvent {
    pub balance: u64,
    pub difficulty: u64,
    pub reward: u64,
}

/// The bus with the given id at bootstrap: an empty budget and no demand.
pub open spec fn fresh_bus(id: u64) -> Bus {
    Bus { id, rewards: 0, theoretical_rewards: 0 }
}

/// The buses of a token at bootstrap, one per id from 0 to `BUS_COUNT - 1`.
pub fn initial_buses() -> (r: Vec<Bus>)
    ensures
        r@.len() == BUS_COUNT,
        forall|i: int| 0 <= i < BUS_COUNT ==> r@[i] == fresh_bus(i as u64),
{
    let mut buses: Vec<Bus> = Vec::new();
    let mut i: u64 = 0;
    while i < BUS_COUNT
        invariant
            i <= BUS_COUNT,
            buses@.len() == i,
            forall|j: int| 0 <= j < i ==> buses@[j] == fresh_bus(j as u64),
        decreases BUS_COUNT - i,
    {
        buses.push(Bus { id: i, rewards: 0, theoretical_rewards: 0 });
        i = i + 1;
    }
    buses
}

} // verus!
