use vstd::prelude::*;
use crate::address::Address;
use crate::error::CoalError;
use crate::reward::{compute_reward, reward_spec};
use crate::solution::{drillx_hash, leading_zero_bits, solution_difficulty};
use crate::state::{Bus, Config, MineEvent, Proof, EPOCH_DURATION};

verus! {

/// `a + b`, held at the 64-bit ceiling.
pub open spec fn saturating_sum(a: u64, b: u64) -> u64 {
    if a + b > u64::MAX {
        u64::MAX
    } else {
        (a + b) as u64
    }
}

/// Whether the config's epoch is still running at time `now`.
pub open spec fn epoch_is_current(c: Config, now: i64) -> bool {
    if c.last_reset_at + EPOCH_DURATION > i64::MAX {
        i64::MAX > now
    } else {
        c.last_reset_at + EPOCH_DURATION > now
    }
}

/// Why a mine is refused before any reward is computed, if it is.
pub open spec fn mine_precondition_error(c: Config, proof: Proof, signer: Address, now: i64) -> Option<CoalError> {
    if !epoch_is_current(c, now) {
        Some(CoalError::NeedsReset)
    } else if proof.miner@ != signer@ {
        Some(CoalError::MissingRequiredSignature)
    } else {
        None
    }
}

/// Why a mine fails, if it does.
pub open spec fn mine_error(c: Config, bus: Bus, proof: Proof, signer: Address, now: i64, difficulty: u32) -> Option<CoalError> {
    if mine_precondition_error(c, proof, signer, now) is Some {
        mine_precondition_error(c, proof, signer, now)
    } else if reward_spec(difficulty, c, bus) is Err {
        Some(reward_spec(difficulty, c, bus)->Err_0)
    } else if proof.balance + reward_spec(difficulty, c, bus)->Ok_0.actual > u64::MAX {
        Some(CoalError::ArithmeticOverflow)
    } else {
        None
    }
}

/// The bus after a successful mine that paid `actual` of `theoretical`.
pub open spec fn bus_after_mine(bus: Bus, theoretical: u64, actual: u64) -> Bus {
    Bus {
        rewards: (bus.rewards - actual) as u64,
        theoretical_rewards: saturating_sum(bus.theoretical_rewards, theoretical),
        ..bus
    }
}

/// The proof after a successful mine that paid `actual`.
pub open spec fn proof_after_mine(proof: Proof, actual: u64) -> Proof {
    Proof {
        balance: (proof.balance + actual) as u64,
        total_hashes: saturating_sum(proof.total_hashes, 1),
        total_rewards: saturating_sum(proof.total_rewards, actual),
        ..proof
    }
}

fn saturating_add_u64(a: u64, b: u64) -> (r: u64)
    ensures
        r == saturating_sum(a, b),
{
    match a.checked_add(b) {
        Some(v) => v,
        None => u64::MAX,
    }
}

/// Checks that a mine may proceed: the epoch is still running and the signer
/// is the proof's miner. Runs before the solution is forwarded upstream.
pub fn check_mine(config: &Config, proof: &Proof, signer: &Address, now: i64) -> (r: Result<(), CoalError>)
    ensures
        r is Ok <==> mine_precondition_error(*config, *proof, *signer, now) is None,
        r is Err ==> r->Err_0 == mine_precondition_error(*config, *proof, *signer, now)->Some_0,
{
    let current = if config.last_reset_at > i64::MAX - EPOCH_DURATION {
        i64::MAX > now
    } else {
        config.last_reset_at + EPOCH_DURATION > now
    };
    if !current {
        return Err(CoalError::NeedsReset);
    }
    if !proof.miner.same(signer) {
        return Err(CoalError::MissingRequiredSignature);
    }
    Ok(())
}

/// Accounts a hash of the given difficulty: pays the capped reward into the
/// proof, draws it from the bus, and records the uncapped demand. Nothing
/// changes when it fails.
pub fn mine_hash(
    config: &Config,
    bus: &mut Bus,
    proof: &mut Proof,
    signer: &Address,
    now: i64,
    difficulty: u32,
) -> (r: Result<MineEvent, CoalError>)
    requires
        config.wf(),
    ensures
        r is Ok <==> mine_error(*config, *old(bus), *old(proof), *signer, now, difficulty) is None,
        r is Err ==> r->Err_0 == mine_error(*config, *old(bus), *old(proof), *signer, now, difficulty)->Some_0
            && *final(bus) == *old(bus) && *final(proof) == *old(proof),
        r is Ok ==> ({
            let o = reward_spec(difficulty, *config, *old(bus))->Ok_0;
            &&& *final(bus) == bus_after_mine(*old(bus), o.theoretical, o.actual)
            &&& *final(proof) == proof_after_mine(*old(proof), o.actual)
            &&& r->Ok_0 == (MineEvent {
                balance: final(proof).balance,
                difficulty: difficulty as u64,
                reward: o.actual,
            })
        }),
        r is Ok ==> r->Ok_0.reward <= reward_spec(difficulty, *config, *old(bus))->Ok_0.theoretical
            && r->Ok_0.reward <= old(bus).rewards
            && final(bus).rewards == old(bus).rewards - r->Ok_0.reward,
{
    check_mine(config, proof, signer, now)?;
    let reward = compute_reward(difficulty, config, bus)?;
    let balance: u64 = match proof.balance.checked_add(reward.actual) {
        Some(b) => b,
        None => {
            return Err(CoalError::ArithmeticOverflow);
        },
    };
    bus.theoretical_rewards = saturating_add_u64(bus.theoretical_rewards, reward.theoretical);
    bus.rewards = bus.rewards - reward.actual;
    proof.balance = balance;
    proof.total_hashes = saturating_add_u64(proof.total_hashes, 1);
    proof.total_rewards = saturating_add_u64(proof.total_rewards, reward.actual);
    Ok(MineEvent { balance, difficulty: difficulty as u64, reward: reward.actual })
}

/// Accounts a submitted solution: its difficulty is read from the drillx
/// hash of the digest and nonce, then the hash is mined as by `mine_hash`.
pub fn process_mine(
    config: &Config,
    bus: &mut Bus,
    proof: &mut Proof,
    signer: &Address,
    now: i64,
    digest: [u8; 16],
    nonce: [u8; 8],
) -> (r: Result<MineEvent, CoalError>)
    requires
        config.wf(),
    ensures
        ({
            let d = leading_zero_bits(drillx_hash(digest@, nonce@));
            &&& d <= u32::MAX
            &&& r is Ok <==> mine_error(*config, *old(bus), *old(proof), *signer, now, d as u32) is None
            &&& r is Err ==> r->Err_0 == mine_error(*config, *old(bus), *old(proof), *signer, now, d as u32)->Some_0
                && *final(bus) == *old(bus) && *final(proof) == *old(proof)
            &&& r is Ok ==> ({
                let o = reward_spec(d as u32, *config, *old(bus))->Ok_0;
                &&& *final(bus) == bus_after_mine(*old(bus), o.theoretical, o.actual)
                &&& *final(proof) == proof_after_mine(*old(proof), o.actual)
                &&& r->Ok_0 == (MineEvent { balance: final(proof).balance, difficulty: d as u64, reward: o.actual })
            })
        }),
{
    let difficulty = solution_difficulty(digest, nonce);
    mine_hash(config, bus, proof, signer, now, difficulty)
}

} // verus!
