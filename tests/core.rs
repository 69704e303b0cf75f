use coal_core::{
    compute_reward, hash_difficulty, process_claim, process_close, process_mine, process_open,
    process_upgrade, solution_difficulty, mine_hash, check_mine, Address, Bus, Claim, CoalError,
    Config, Ingredient, Mint, OreInstruction, Proof, RewardCap, TokenAccount, Upgrade,
};

fn key(b: u8) -> Address {
    Address::new([b; 32])
}

fn config() -> Config {
    let none = Ingredient { mint: key(0), ratio_bits: 0 };
    Config {
        mint: key(1),
        migration_mint: key(2),
        max_supply: 1_000,
        base_reward_rate: 10,
        last_reset_at: 1_000,
        min_difficulty: 8,
        total_balance: 0,
        total_rewards: 0,
        initial_epoch_rewards: 8_000,
        current_epoch: 0,
        schedule_epochs: 0,
        decay_basis_points: 0,
        wrapped_ingredient: none,
        burned_ingredient: none,
        reward_cap: RewardCap::EpochScaled,
    }
}

fn make_proof(authority: u8, miner: u8, balance: u64) -> Proof {
    Proof {
        authority: key(authority),
        balance,
        last_stake_at: 0,
        miner: key(miner),
        total_hashes: 0,
        total_rewards: 0,
        bump: 255,
    }
}

fn bus(rewards: u64) -> Bus {
    Bus { id: 3, rewards, theoretical_rewards: 0 }
}

fn decaying(epoch: u64) -> Config {
    let mut c = config();
    c.schedule_epochs = 10;
    c.decay_basis_points = 1000;
    c.initial_epoch_rewards = 1_000_000;
    c.current_epoch = epoch;
    c
}

#[test]
fn epoch_rewards_decay_per_period() {
    for e in 0..10 {
        assert_eq!(decaying(e).get_epoch_rewards(), 1_000_000);
    }
    for e in 10..20 {
        assert_eq!(decaying(e).get_epoch_rewards(), 900_000);
    }
    assert_eq!(decaying(20).get_epoch_rewards(), 810_000);
}

#[test]
fn epoch_rewards_without_schedule_are_constant() {
    for e in [0u64, 1, 10, 1_000, u64::MAX] {
        let mut c = config();
        c.current_epoch = e;
        c.decay_basis_points = 5_000;
        assert_eq!(c.get_epoch_rewards(), 8_000);
    }
}

#[test]
fn epoch_rewards_full_decay_and_huge_epoch() {
    let mut c = decaying(10);
    c.decay_basis_points = 10_000;
    assert_eq!(c.get_epoch_rewards(), 0);
    let mut c = decaying(u64::MAX);
    c.decay_basis_points = 0;
    assert_eq!(c.get_epoch_rewards(), 1_000_000);
    let c = decaying(u64::MAX);
    assert_eq!(c.get_epoch_rewards(), 0);
}

#[test]
fn epoch_rewards_saturate_large_budget() {
    let mut c = decaying(10);
    c.initial_epoch_rewards = u64::MAX;
    assert_eq!(c.get_epoch_rewards(), u64::MAX / 10_000);
}

#[test]
fn reward_doubles_per_bit_and_is_capped() {
    let c = config();
    let r = compute_reward(8, &c, &bus(1_000_000)).unwrap();
    assert_eq!((r.theoretical, r.actual), (10, 10));
    let r = compute_reward(11, &c, &bus(1_000_000)).unwrap();
    assert_eq!((r.theoretical, r.actual), (80, 80));
    // cap is the bus's share of the epoch: 8_000 / 8
    let r = compute_reward(20, &c, &bus(1_000_000)).unwrap();
    assert_eq!((r.theoretical, r.actual), (40_960, 1_000));
    // bus budget below the cap
    let r = compute_reward(20, &c, &bus(7)).unwrap();
    assert_eq!((r.theoretical, r.actual), (40_960, 7));
}

#[test]
fn reward_is_monotonic_in_difficulty() {
    let c = config();
    let mut last = (0u64, 0u64);
    for d in 8..40u32 {
        let r = compute_reward(d, &c, &bus(5_000)).unwrap();
        assert!(r.theoretical >= last.0 && r.actual >= last.1);
        assert!(r.actual <= r.theoretical);
        last = (r.theoretical, r.actual);
    }
}

#[test]
fn reward_fixed_cap_revision() {
    let mut c = config();
    c.reward_cap = RewardCap::FixedPerHash { limit: 25 };
    let r = compute_reward(12, &c, &bus(1_000)).unwrap();
    assert_eq!((r.theoretical, r.actual), (160, 25));
}

#[test]
fn reward_errors() {
    let c = config();
    assert_eq!(compute_reward(7, &c, &bus(10)), Err(CoalError::InvalidDifficulty));
    // 10 * 2^61 overflows 64 bits, 10 * 2^60 does not
    assert_eq!(compute_reward(69, &c, &bus(10)), Err(CoalError::ArithmeticOverflow));
    assert_eq!(compute_reward(68, &c, &bus(10)).unwrap().theoretical, 11_529_215_046_068_469_760);
    assert_eq!(compute_reward(8 + 64, &c, &bus(10)), Err(CoalError::ArithmeticOverflow));
    let mut c = config();
    c.base_reward_rate = 0;
    assert_eq!(compute_reward(8 + 64, &c, &bus(10)), Err(CoalError::ArithmeticOverflow));
    assert_eq!(compute_reward(8 + 63, &c, &bus(10)).unwrap().theoretical, 0);
}

#[test]
fn mine_pays_and_draws_from_bus() {
    let c = config();
    let mut b = bus(100);
    b.theoretical_rewards = 5;
    let mut p = make_proof(4, 5, 3);
    let ev = mine_hash(&c, &mut b, &mut p, &key(5), 1_010, 12).unwrap();
    assert_eq!((ev.balance, ev.difficulty, ev.reward), (103, 12, 100));
    assert_eq!(b.rewards, 0);
    assert_eq!(b.theoretical_rewards, 165);
    assert_eq!((p.balance, p.total_hashes, p.total_rewards), (103, 1, 100));
}

#[test]
fn mine_rejections_leave_state_unchanged() {
    let c = config();
    let mut b = bus(100);
    let mut p = make_proof(4, 5, 3);
    assert_eq!(mine_hash(&c, &mut b, &mut p, &key(5), 1_060, 12), Err(CoalError::NeedsReset));
    assert_eq!(mine_hash(&c, &mut b, &mut p, &key(4), 1_010, 12), Err(CoalError::MissingRequiredSignature));
    assert_eq!(mine_hash(&c, &mut b, &mut p, &key(5), 1_010, 3), Err(CoalError::InvalidDifficulty));
    let mut full = make_proof(4, 5, u64::MAX);
    assert_eq!(mine_hash(&c, &mut b, &mut full, &key(5), 1_010, 12), Err(CoalError::ArithmeticOverflow));
    assert_eq!(full.balance, u64::MAX);
    assert_eq!(b.rewards, 100);
    assert_eq!(p.balance, 3);
    assert_eq!(check_mine(&c, &p, &key(5), 1_059), Ok(()));
}

#[test]
fn mine_near_time_ceiling() {
    let mut c = config();
    c.last_reset_at = i64::MAX - 1;
    let p = make_proof(4, 5, 0);
    assert_eq!(check_mine(&c, &p, &key(5), i64::MAX - 1), Ok(()));
    assert_eq!(check_mine(&c, &p, &key(5), i64::MAX), Err(CoalError::NeedsReset));
}

#[test]
fn mine_counters_saturate() {
    let c = config();
    let mut b = bus(100);
    b.theoretical_rewards = u64::MAX - 1;
    let mut p = make_proof(4, 5, 0);
    p.total_hashes = u64::MAX;
    p.total_rewards = u64::MAX;
    mine_hash(&c, &mut b, &mut p, &key(5), 1_010, 8).unwrap();
    assert_eq!(b.theoretical_rewards, u64::MAX);
    assert_eq!((p.total_hashes, p.total_rewards), (u64::MAX, u64::MAX));
}

#[test]
fn mine_solution_uses_its_difficulty() {
    let digest = [7u8; 16];
    let nonce = [9u8; 8];
    let d = solution_difficulty(digest, nonce);
    assert!(d <= 256);
    let mut c = config();
    c.min_difficulty = 0;
    let mut b = bus(1_000_000);
    let mut p = make_proof(4, 5, 0);
    let ev = process_mine(&c, &mut b, &mut p, &key(5), 1_010, digest, nonce).unwrap();
    assert_eq!(ev.difficulty, d as u64);
    assert_eq!(ev.balance, p.balance);
    assert_eq!(ev.reward, compute_reward(d, &c, &bus(1_000_000)).unwrap().actual);
}

#[test]
fn hash_difficulty_counts_leading_zero_bits() {
    assert_eq!(hash_difficulty([0u8; 32]), 256);
    assert_eq!(hash_difficulty([0xffu8; 32]), 0);
    let mut h = [0xffu8; 32];
    h[0] = 0;
    h[1] = 0;
    h[2] = 1;
    assert_eq!(hash_difficulty(h), 23);
    h[2] = 0x10;
    assert_eq!(hash_difficulty(h), 19);
}

#[test]
fn claim_debits_and_cascades_at_zero() {
    let mut p = make_proof(4, 5, 50);
    let out = process_claim(&mut p, &key(4), 20, 77).unwrap();
    assert_eq!((out.transfer, out.upstream_claim), (20, None));
    assert_eq!(p.balance, 30);
    let out = process_claim(&mut p, &key(4), 30, 77).unwrap();
    assert_eq!((out.transfer, out.upstream_claim), (30, Some(77)));
    assert_eq!(p.balance, 0);
    let out = process_claim(&mut p, &key(4), 0, 0).unwrap();
    assert_eq!((out.transfer, out.upstream_claim), (0, None));
}

#[test]
fn emptying_claim_drains_even_empty_upstream() {
    let mut p = make_proof(4, 5, 50);
    let out = process_claim(&mut p, &key(4), 50, 0).unwrap();
    assert_eq!((out.transfer, out.upstream_claim), (50, Some(0)));
    assert_eq!(p.balance, 0);
}

#[test]
fn claim_of_nothing_on_empty_proof_does_not_drain() {
    let mut p = make_proof(4, 5, 0);
    let out = process_claim(&mut p, &key(4), 0, 77).unwrap();
    assert_eq!((out.transfer, out.upstream_claim), (0, None));
    assert_eq!(p.balance, 0);
    let out = process_claim(&mut p, &key(4), 0, 77).unwrap();
    assert_eq!((out.transfer, out.upstream_claim), (0, None));
}

#[test]
fn claim_of_nothing_is_noop() {
    let mut p = make_proof(4, 5, 50);
    let out = process_claim(&mut p, &key(4), 0, 77).unwrap();
    assert_eq!((out.transfer, out.upstream_claim), (0, None));
    assert_eq!(p.balance, 50);
}

#[test]
fn claim_errors() {
    let mut p = make_proof(4, 5, 50);
    assert_eq!(process_claim(&mut p, &key(4), 51, 0), Err(CoalError::ClaimTooLarge));
    assert_eq!(process_claim(&mut p, &key(5), 1, 0), Err(CoalError::MissingRequiredSignature));
    assert_eq!(p.balance, 50);
}

#[test]
fn close_requires_empty_balance() {
    let mut slot = Some(make_proof(4, 5, 1));
    assert_eq!(process_close(&mut slot, &key(4)), Err(CoalError::InvalidAccountData));
    assert_eq!(slot.unwrap().balance, 1);
    assert_eq!(process_close(&mut slot, &key(5)), Err(CoalError::MissingRequiredSignature));
    assert!(slot.is_some());
    let mut empty: Option<Proof> = None;
    assert_eq!(process_close(&mut empty, &key(4)), Err(CoalError::AccountNotFound));
}

#[test]
fn open_close_reopen() {
    let c = config();
    let mut slot: Option<Proof> = None;
    process_open(&c, &key(1), &mut slot, &key(4), &key(5), 77, 254).unwrap();
    let p = slot.unwrap();
    assert_eq!((p.balance, p.last_stake_at, p.bump, p.total_hashes, p.total_rewards), (0, 77, 254, 0, 0));
    assert!(p.authority.same(&key(4)) && p.miner.same(&key(5)));
    assert_eq!(process_open(&c, &key(1), &mut slot, &key(4), &key(6), 78, 254), Err(CoalError::AccountAlreadyInitialized));
    process_close(&mut slot, &key(4)).unwrap();
    assert!(slot.is_none());
    process_open(&c, &key(1), &mut slot, &key(4), &key(6), 90, 254).unwrap();
    assert!(slot.unwrap().miner.same(&key(6)));
    let mut other: Option<Proof> = None;
    assert_eq!(process_open(&c, &key(9), &mut other, &key(4), &key(5), 1, 1), Err(CoalError::InvalidAccountData));
}

fn accounts(legacy: u64, supply: u64) -> (TokenAccount, Mint, TokenAccount, Mint) {
    (
        TokenAccount { owner: key(4), mint: key(2), amount: legacy },
        Mint { address: key(2), supply: legacy + 10 },
        TokenAccount { owner: key(4), mint: key(1), amount: 0 },
        Mint { address: key(1), supply },
    )
}

#[test]
fn upgrade_converts_one_for_one() {
    let c = config();
    let (mut s, mut lm, mut b, mut m) = accounts(300, 600);
    process_upgrade(&c, &key(4), &mut s, &mut lm, &mut b, &mut m, 120).unwrap();
    assert_eq!((s.amount, lm.supply, b.amount, m.supply), (180, 190, 120, 720));
    assert_eq!(s.amount + b.amount, 300);
    process_upgrade(&c, &key(4), &mut s, &mut lm, &mut b, &mut m, 180).unwrap();
    assert_eq!((s.amount, b.amount, m.supply), (0, 300, 900));
}

#[test]
fn upgrade_over_max_supply_credits_nothing() {
    let c = config();
    let (mut s, mut lm, mut b, mut m) = accounts(300, 900);
    assert_eq!(process_upgrade(&c, &key(4), &mut s, &mut lm, &mut b, &mut m, 101), Err(CoalError::MaxSupply));
    assert_eq!((s.amount, b.amount, m.supply), (300, 0, 900));
    process_upgrade(&c, &key(4), &mut s, &mut lm, &mut b, &mut m, 100).unwrap();
    assert_eq!(m.supply, 1_000);
}

#[test]
fn upgrade_validation_errors() {
    let c = config();
    let (mut s, mut lm, mut b, mut m) = accounts(300, 0);
    assert_eq!(process_upgrade(&c, &key(4), &mut s, &mut lm, &mut b, &mut m, 301), Err(CoalError::InsufficientFunds));
    assert_eq!(process_upgrade(&c, &key(5), &mut s, &mut lm, &mut b, &mut m, 1), Err(CoalError::InvalidAccountData));
    s.mint = key(1);
    assert_eq!(process_upgrade(&c, &key(4), &mut s, &mut lm, &mut b, &mut m, 1), Err(CoalError::InvalidAccountData));
}

#[test]
fn instruction_amounts_and_tags() {
    assert_eq!(Claim { amount: [1, 2, 0, 0, 0, 0, 0, 0] }.amount(), 513);
    assert_eq!(Upgrade { amount: 42u64.to_le_bytes() }.amount(), 42);
    assert_eq!(Upgrade { amount: [0xff; 8] }.amount(), u64::MAX);
    assert_eq!(OreInstruction::from_tag(2), Some(OreInstruction::Mine));
    assert_eq!(OreInstruction::from_tag(100), Some(OreInstruction::Initialize));
    assert_eq!(OreInstruction::from_tag(8), None);
    assert_eq!(OreInstruction::Upgrade.tag(), 7);
}

#[test]
fn bootstrap_buses() {
    let buses = coal_core::initial_buses();
    assert_eq!(buses.len(), 8);
    for (i, b) in buses.iter().enumerate() {
        assert_eq!(*b, Bus { id: i as u64, rewards: 0, theoretical_rewards: 0 });
    }
}
