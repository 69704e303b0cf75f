//! Accounting core of a proof-of-work token-emission protocol: reward
//! computation under rate limits, epoch decay, and the proof-account
//! lifecycle (open, mine, claim, close, upgrade).
mod address;
mod error;
mod state;
mod reward;
mod solution;
mod mine;
mod claim;
mod lifecycle;
mod upgrade;
mod instruction;

pub use address::Address;
pub use error::CoalError;
pub use state::{initial_buses, Bus, Config, Ingredient, MineEvent, Proof, RewardCap, BUS_COUNT, EPOCH_DURATION};
pub use reward::{
    compute_reward, lemma_epoch_rewards_non_increasing, lemma_reward_monotonic,
    lemma_unscheduled_rewards_constant, RewardOutcome,
};
pub use solution::{hash_difficulty, solution_difficulty};
pub use mine::{check_mine, mine_hash, process_mine};
pub use claim::{lemma_claim_nothing_is_noop, lemma_emptying_claim_drains_upstream, process_claim, ClaimOutcome};
pub use lifecycle::{process_close, lemma_close_needs_empty_balance, lemma_open_close_reopen, process_open};
pub use upgrade::{lemma_upgrade_conserves_value, process_upgrade, Mint, TokenAccount};
pub use instruction::{Claim, Close, Initialize, Mine, Open, OreInstruction, Reset, Stake, Update, Upgrade};
