use vstd::prelude::*;
use crate::error::CoalError;
use crate::state::{Bus, Config, RewardCap, BASIS_POINTS, BUS_COUNT};

verus! {

/// `a * b`, held at the 64-bit ceiling.
pub open spec fn saturating_product(a: nat, b: nat) -> nat {
    if a * b > u64::MAX {
        u64::MAX as nat
    } else {
        a * b
    }
}

/// Basis points left after `position` compounding decay periods.
pub open spec fn remaining_basis_points(position: nat, decay: nat) -> nat
    decreases position,
{
    if position == 0 {
        BASIS_POINTS as nat
    } else {
        saturating_product(
            remaining_basis_points((position - 1) as nat, decay),
            (BASIS_POINTS - decay) as nat,
        ) / (BASIS_POINTS as nat)
    }
}

/// The emission budget of the config's current epoch.
pub open spec fn epoch_rewards(c: Config) -> nat {
    if c.schedule_epochs == 0 || c.current_epoch / c.schedule_epochs == 0 {
        c.initial_epoch_rewards as nat
    } else {
        saturating_product(
            c.initial_epoch_rewards as nat,
            remaining_basis_points((c.current_epoch / c.schedule_epochs) as nat, c.decay_basis_points as nat),
        ) / (BASIS_POINTS as nat)
    }
}

pub open spec fn pow2(n: nat) -> nat
    decreases n,
{
    if n == 0 {
        1
    } else {
        2 * pow2((n - 1) as nat)
    }
}

/// The uncapped reward of a hash `normalized` bits above the floor.
pub open spec fn theoretical_reward(base: nat, normalized: nat) -> nat {
    base * pow2(normalized)
}

/// Whether scaling the base rate leaves the 64-bit range.
pub open spec fn reward_overflows(base: nat, normalized: nat) -> bool {
    pow2(normalized) > u64::MAX || theoretical_reward(base, normalized) > u64::MAX
}

/// The most a single hash may earn under the config's revision.
pub open spec fn hash_cap(c: Config) -> nat {
    match c.reward_cap {
        RewardCap::FixedPerHash { limit } => limit as nat,
        RewardCap::EpochScaled => epoch_rewards(c) / (BUS_COUNT as nat),
    }
}

pub open spec fn min_nat(a: nat, b: nat) -> nat {
    if a <= b {
        a
    } else {
        b
    }
}

/// The outcome of the reward engine on a hash of the given difficulty.
pub open spec fn reward_spec(difficulty: u32, c: Config, bus: Bus) -> Result<RewardOutcome, CoalError> {
    if (difficulty as nat) < c.min_difficulty {
        Err(CoalError::InvalidDifficulty)
    } else {
        let n = (difficulty - c.min_difficulty) as nat;
        if reward_overflows(c.base_reward_rate as nat, n) {
            Err(CoalError::ArithmeticOverflow)
        } else {
            let t = theoretical_reward(c.base_reward_rate as nat, n);
            Ok(
                RewardOutcome {
                    theoretical: t as u64,
                    actual: min_nat(min_nat(t, bus.rewards as nat), hash_cap(c)) as u64,
                },
            )
        }
    }
}

/// The uncapped and the paid reward of one hash.
#[derive(Clone, Copy, Debug, PartialEq, Eq, Structural)]
pub struct RewardOutcome {
    pub theoretical: u64,
    pub actual: u64,
}

proof fn lemma_remaining_bounded(n: nat, decay: nat)
    requires
        decay <= BASIS_POINTS,
    ensures
        remaining_basis_points(n, decay) <= BASIS_POINTS,
    decreases n,
{
    if n > 0 {
        let prev = remaining_basis_points((n - 1) as nat, decay);
        let f = (BASIS_POINTS - decay) as nat;
        lemma_remaining_bounded((n - 1) as nat, decay);
        assert(prev * f <= 100000000) by (nonlinear_arith)
            requires
                prev <= 10000,
                f <= 10000,
        ;
        assert(prev * f / 10000 <= prev) by (nonlinear_arith)
            requires
                f <= 10000,
        ;
    }
}

proof fn lemma_remaining_zero_stays(n: nat, m: nat, decay: nat)
    requires
        n <= m,
        remaining_basis_points(n, decay) == 0,
    ensures
        remaining_basis_points(m, decay) == 0,
    decreases m - n,
{
    if n < m {
        lemma_remaining_zero_stays(n, (m - 1) as nat, decay);
        assert(0 * ((BASIS_POINTS - decay) as nat) == 0);
    }
}

proof fn lemma_remaining_no_decay(n: nat)
    ensures
        remaining_basis_points(n, 0) == BASIS_POINTS,
    decreases n,
{
    if n > 0 {
        lemma_remaining_no_decay((n - 1) as nat);
        assert(10000nat * 10000nat == 100000000nat);
    }
}

proof fn lemma_pow2_monotonic(a: nat, b: nat)
    requires
        a <= b,
    ensures
        pow2(a) <= pow2(b),
        pow2(a) >= 1,
    decreases b,
{
    if a < b {
        lemma_pow2_monotonic(a, (b - 1) as nat);
    } else if a > 0 {
        lemma_pow2_monotonic((a - 1) as nat, (a - 1) as nat);
    }
}

/// `a * b`, held at the 64-bit ceiling.
fn saturating_mul_u64(a: u64, b: u64) -> (r: u64)
    ensures
        r as nat == saturating_product(a as nat, b as nat),
{
    match a.checked_mul(b) {
        Some(v) => v,
        None => u64::MAX,
    }
}

impl Config {
    /// The emission budget of the current epoch: the initial budget,
    /// decayed once per completed schedule period.
    pub fn get_epoch_rewards(&self) -> (r: u64)
        requires
            self.wf(),
        ensures
            r as nat == epoch_rewards(*self),
    {
        if self.schedule_epochs == 0 {
            return self.initial_epoch_rewards;
        }
        let schedule_position: u64 = self.current_epoch / self.schedule_epochs;
        if schedule_position == 0 {
            return self.initial_epoch_rewards;
        }
        let decay = Ghost(self.decay_basis_points as nat);
        let factor: u64 = BASIS_POINTS - self.decay_basis_points;
        let mut remaining: u64 = BASIS_POINTS;
        let mut i: u64 = 0;
        while i < schedule_position && remaining > 0 && factor < BASIS_POINTS
            invariant
                i <= schedule_position,
                factor == BASIS_POINTS - decay@,
                decay@ == self.decay_basis_points,
                self.wf(),
                remaining as nat == remaining_basis_points(i as nat, decay@),
            decreases schedule_position - i,
        {
            proof {
                lemma_remaining_bounded(i as nat, decay@);
                assert(remaining * factor <= 100000000) by (nonlinear_arith)
                    requires
                        remaining <= 10000,
                        factor <= 10000,
                ;
            }
            remaining = remaining * factor / BASIS_POINTS;
            i = i + 1;
        }
        proof {
            if i < schedule_position {
                if remaining == 0 {
                    lemma_remaining_zero_stays(i as nat, schedule_position as nat, decay@);
                } else {
                    lemma_remaining_no_decay(schedule_position as nat);
                    lemma_remaining_no_decay(i as nat);
                }
            }
        }
        saturating_mul_u64(self.initial_epoch_rewards, remaining) / BASIS_POINTS
    }
}

/// Computes the uncapped and the paid reward of a hash of the given
/// difficulty: the base rate doubles with every bit above the floor, and the
/// paid amount is held to the bus's remaining budget and the per-hash cap.
pub fn compute_reward(difficulty: u32, config: &Config, bus: &Bus) -> (r: Result<RewardOutcome, CoalError>)
    requires
        config.wf(),
    ensures
        r == reward_spec(difficulty, *config, *bus),
{
    if (difficulty as u64) < config.min_difficulty {
        return Err(CoalError::InvalidDifficulty);
    }
    let normalized: u64 = difficulty as u64 - config.min_difficulty;
    let mut scale: u64 = 1;
    let mut i: u64 = 0;
    while i < normalized
        invariant
            i <= normalized,
            normalized == difficulty - config.min_difficulty,
            scale as nat == pow2(i as nat),
        decreases normalized - i,
    {
        if scale > u64::MAX / 2 {
            proof {
                assert(pow2((i + 1) as nat) == 2 * pow2(i as nat));
                lemma_pow2_monotonic((i + 1) as nat, normalized as nat);
            }
            return Err(CoalError::ArithmeticOverflow);
        }
        scale = scale * 2;
        i = i + 1;
    }
    let theoretical: u64 = match config.base_reward_rate.checked_mul(scale) {
        Some(t) => t,
        None => {
            return Err(CoalError::ArithmeticOverflow);
        },
    };
    let cap: u64 = match config.reward_cap {
        RewardCap::FixedPerHash { limit } => limit,
        RewardCap::EpochScaled => config.get_epoch_rewards() / BUS_COUNT,
    };
    let mut actual: u64 = theoretical;
    if bus.rewards < actual {
        actual = bus.rewards;
    }
    if cap < actual {
        actual = cap;
    }
    Ok(RewardOutcome { theoretical, actual })
}

/// A harder hash never earns less: at or above the floor, raising the
/// difficulty keeps the reward computable only if it was before, and raises
/// neither the uncapped nor the paid reward less than zero. At the floor
/// itself the uncapped reward is the base rate.
pub proof fn lemma_reward_monotonic(config: Config, bus: Bus, low: u32, high: u32)
    requires
        config.wf(),
        config.min_difficulty <= low <= high,
    ensures
        reward_spec(high, config, bus) is Ok ==> reward_spec(low, config, bus) is Ok,
        reward_spec(high, config, bus) is Ok ==> reward_spec(low, config, bus)->Ok_0.theoretical
            <= reward_spec(high, config, bus)->Ok_0.theoretical,
        reward_spec(high, config, bus) is Ok ==> reward_spec(low, config, bus)->Ok_0.actual
            <= reward_spec(high, config, bus)->Ok_0.actual,
        low == config.min_difficulty ==> reward_spec(low, config, bus) == Ok::<RewardOutcome, CoalError>(
            RewardOutcome {
                theoretical: config.base_reward_rate,
                actual: min_nat(min_nat(config.base_reward_rate as nat, bus.rewards as nat), hash_cap(config)) as u64,
            },
        ),
{
    let nl = (low - config.min_difficulty) as nat;
    let nh = (high - config.min_difficulty) as nat;
    let base = config.base_reward_rate as nat;
    lemma_pow2_monotonic(nl, nh);
    assert(base * pow2(nl) <= base * pow2(nh)) by (nonlinear_arith)
        requires
            pow2(nl) <= pow2(nh),
    ;
    if low == config.min_difficulty {
        assert(nl == 0);
        assert(pow2(0) == 1);
        assert(base * 1 == base);
    }
}

proof fn lemma_remaining_non_increasing(n: nat, m: nat, decay: nat)
    requires
        n <= m,
        decay <= BASIS_POINTS,
    ensures
        remaining_basis_points(m, decay) <= remaining_basis_points(n, decay),
    decreases m - n,
{
    if n < m {
        lemma_remaining_non_increasing(n, (m - 1) as nat, decay);
        let prev = remaining_basis_points((m - 1) as nat, decay);
        let f = (BASIS_POINTS - decay) as nat;
        lemma_remaining_bounded((m - 1) as nat, decay);
        assert(prev * f <= 100000000) by (nonlinear_arith)
            requires
                prev <= 10000,
                f <= 10000,
        ;
        assert(prev * f / 10000 <= prev) by (nonlinear_arith)
            requires
                f <= 10000,
        ;
    }
}

/// As the epoch counter advances under a fixed schedule, the epoch budget
/// never grows.
pub proof fn lemma_epoch_rewards_non_increasing(config: Config, later_epoch: u64)
    requires
        config.wf(),
        config.current_epoch <= later_epoch,
    ensures
        epoch_rewards(Config { current_epoch: later_epoch, ..config }) <= epoch_rewards(config),
{
    let later = Config { current_epoch: later_epoch, ..config };
    if config.schedule_epochs != 0 {
        let s = config.schedule_epochs as int;
        let p1 = config.current_epoch as int / s;
        let p2 = later_epoch as int / s;
        assert(p1 <= p2) by (nonlinear_arith)
            requires
                config.current_epoch <= later_epoch,
                s > 0,
                p1 == config.current_epoch as int / s,
                p2 == later_epoch as int / s,
        ;
        let init = config.initial_epoch_rewards as nat;
        let d = config.decay_basis_points as nat;
        if p2 != 0 {
            let r2 = remaining_basis_points(p2 as nat, d);
            lemma_remaining_bounded(p2 as nat, d);
            assert(saturating_product(init, r2) / 10000 <= init) by (nonlinear_arith)
                requires
                    r2 <= 10000,
                    saturating_product(init, r2) <= init * r2,
            ;
            if p1 != 0 {
                let r1 = remaining_basis_points(p1 as nat, d);
                lemma_remaining_non_increasing(p1 as nat, p2 as nat, d);
                assert(init * r2 <= init * r1) by (nonlinear_arith)
                    requires
                        r2 <= r1,
                ;
                assert(saturating_product(init, r2) <= saturating_product(init, r1));
                assert(saturating_product(init, r2) / 10000 <= saturating_product(init, r1) / 10000)
                    by (nonlinear_arith)
                    requires
                        saturating_product(init, r2) <= saturating_product(init, r1),
                ;
            }
        }
    }
}

/// Without a decay schedule the epoch budget is the initial budget, whatever
/// the epoch.
pub proof fn lemma_unscheduled_rewards_constant(config: Config)
    requires
        config.schedule_epochs == 0,
    ensures
        epoch_rewards(config) == config.initial_epoch_rewards,
{
}

} // verus!
