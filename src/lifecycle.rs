use vstd::prelude::*;
use crate::address::Address;
use crate::error::CoalError;
use crate::state::{Config, Proof};

verus! {

/// The record that opening a proof creates.
pub open spec fn opened_proof(authority: Address, miner: Address, now: i64, proof_bump: u8) -> Proof {
    Proof {
        authority,
        balance: 0,
        last_stake_at: now,
        miner,
        total_hashes: 0,
        total_rewards: 0,
        bump: proof_bump as u64,
    }
}

/// Why opening a proof fails, if it does.
pub open spec fn open_error(config: Config, mint: Address, slot: Option<Proof>) -> Option<CoalError> {
    if config.mint@ != mint@ {
        Some(CoalError::InvalidAccountData)
    } else if slot is Some {
        Some(CoalError::AccountAlreadyInitialized)
    } else {
        None
    }
}

/// Why closing a proof fails, if it does.
pub open spec fn close_error(slot: Option<Proof>, signer: Address) -> Option<CoalError> {
    match slot {
        None => Some(CoalError::AccountNotFound),
        Some(p) => if p.authority@ != signer@ {
            Some(CoalError::MissingRequiredSignature)
        } else if p.balance != 0 {
            Some(CoalError::InvalidAccountData)
        } else {
            None
        },
    }
}

/// The slot after an open: the new record when the open succeeds, the slot
/// as it was otherwise.
pub open spec fn slot_after_open(
    config: Config,
    mint: Address,
    slot: Option<Proof>,
    signer: Address,
    miner: Address,
    now: i64,
    proof_bump: u8,
) -> Option<Proof> {
    if open_error(config, mint, slot) is None {
        Some(opened_proof(signer, miner, now, proof_bump))
    } else {
        slot
    }
}

/// The slot after a close: empty when the close succeeds, as it was
/// otherwise.
pub open spec fn slot_after_close(slot: Option<Proof>, signer: Address) -> Option<Proof> {
    if close_error(slot, signer) is None {
        None
    } else {
        slot
    }
}

/// Creates the proof of `signer` for the config's token in the empty
/// `slot`, the record at the address derived from (token, signer), with
/// `miner` as the key allowed to submit hashes. The mirrored upstream record
/// and the boost registration are then created by the caller, in that order.
pub fn process_open(
    config: &Config,
    mint: &Address,
    slot: &mut Option<Proof>,
    signer: &Address,
    miner: &Address,
    now: i64,
    proof_bump: u8,
) -> (r: Result<(), CoalError>)
    ensures
        r is Ok <==> open_error(*config, *mint, *old(slot)) is None,
        r is Err ==> r->Err_0 == open_error(*config, *mint, *old(slot))->Some_0 && *final(slot) == *old(slot),
        *final(slot) == slot_after_open(*config, *mint, *old(slot), *signer, *miner, now, proof_bump),
{
    if !config.mint.same(mint) {
        return Err(CoalError::InvalidAccountData);
    }
    if slot.is_some() {
        return Err(CoalError::AccountAlreadyInitialized);
    }
    *slot = Some(
        Proof {
            authority: *signer,
            balance: 0,
            last_stake_at: now,
            miner: *miner,
            total_hashes: 0,
            total_rewards: 0,
            bump: proof_bump as u64,
        },
    );
    Ok(())
}

/// Releases the proof in `slot`, which only its authority may do and only
/// while its balance is zero. The mirrored upstream record is closed by the
/// caller first.
pub fn process_close(slot: &mut Option<Proof>, signer: &Address) -> (r: Result<(), CoalError>)
    ensures
        r is Ok <==> close_error(*old(slot), *signer) is None,
        r is Err ==> r->Err_0 == close_error(*old(slot), *signer)->Some_0 && *final(slot) == *old(slot),
        *final(slot) == slot_after_close(*old(slot), *signer),
{
    match slot {
        None => {
            return Err(CoalError::AccountNotFound);
        },
        Some(p) => {
            if !p.authority.same(signer) {
                return Err(CoalError::MissingRequiredSignature);
            }
            if p.balance != 0 {
                return Err(CoalError::InvalidAccountData);
            }
        },
    }
    *slot = None;
    Ok(())
}

/// A proof that still holds a balance cannot be closed.
pub proof fn lemma_close_needs_empty_balance(slot: Option<Proof>, signer: Address)
    requires
        slot is Some,
        slot->Some_0.balance != 0,
    ensures
        close_error(slot, signer) is Some,
{
}

/// Opening a proof and closing it straight away succeeds, and leaves the
/// address free for the same (token, authority) to open again.
pub proof fn lemma_open_close_reopen(
    config: Config,
    mint: Address,
    authority: Address,
    miner: Address,
    now: i64,
    proof_bump: u8,
    next_miner: Address,
    next_now: i64,
    next_bump: u8,
)
    requires
        config.mint@ == mint@,
    ensures
        ({
            let opened = slot_after_open(config, mint, None, authority, miner, now, proof_bump);
            let closed = slot_after_close(opened, authority);
            &&& open_error(config, mint, None) is None
            &&& opened == Some(opened_proof(authority, miner, now, proof_bump))
            &&& close_error(opened, authority) is None
            &&& closed is None
            &&& open_error(config, mint, closed) is None
            &&& slot_after_open(config, mint, closed, authority, next_miner, next_now, next_bump)
                == Some(opened_proof(authority, next_miner, next_now, next_bump))
        }),
{
}

} // verus!
