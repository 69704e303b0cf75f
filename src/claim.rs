use vstd::prelude::*;
use crate::address::Address;
use crate::error::CoalError;
use crate::state::Proof;

verus! {

/// What a successful claim hands to the token service and to the upstream
/// ledger, in that order.
#[derive(Clone, Copy, Debug, PartialEq, Eq, Structural)]
pub struct ClaimOutcome {
    /// Tokens moved from the treasury custody to the beneficiary.
    pub transfer: u64,
    /// When present, the upstream balance drained into the treasury custody.
    pub upstream_claim: Option<u64>,
}

/// Why a claim fails, if it does.
pub open spec fn claim_error(proof: Proof, signer: Address, amount: u64) -> Option<CoalError> {
    if proof.authority@ != signer@ {
        Some(CoalError::MissingRequiredSignature)
    } else if amount > proof.balance {
        Some(CoalError::ClaimTooLarge)
    } else {
        None
    }
}

/// The upstream drain that a claim of `amount` leaving `balance_after`
/// triggers: a claim of the whole upstream balance when a positive claim
/// exhausts the proof, and nothing otherwise. A claim of nothing never
/// drains, so repeating a claim on an empty proof is a no-op.
pub open spec fn cascade(amount: u64, balance_after: u64, upstream_balance: u64) -> Option<u64> {
    if amount > 0 && balance_after == 0 {
        Some(upstream_balance)
    } else {
        None
    }
}

/// Debits `amount` from the proof for transfer to the beneficiary and, when
/// a positive claim exhausts the proof, drains the mirrored upstream balance
/// (`upstream_balance`) into the treasury. Nothing changes when it fails.
pub fn process_claim(proof: &mut Proof, signer: &Address, amount: u64, upstream_balance: u64) -> (r: Result<ClaimOutcome, CoalError>)
    ensures
        r is Ok <==> claim_error(*old(proof), *signer, amount) is None,
        r is Err ==> r->Err_0 == claim_error(*old(proof), *signer, amount)->Some_0 && *final(proof) == *old(proof),
        r is Ok ==> *final(proof) == (Proof { balance: (old(proof).balance - amount) as u64, ..*old(proof) }),
        r is Ok ==> r->Ok_0 == (ClaimOutcome {
            transfer: amount,
            upstream_claim: cascade(amount, final(proof).balance, upstream_balance),
        }),
{
    if !proof.authority.same(signer) {
        return Err(CoalError::MissingRequiredSignature);
    }
    if amount > proof.balance {
        return Err(CoalError::ClaimTooLarge);
    }
    proof.balance = proof.balance - amount;
    let upstream_claim = if amount > 0 && proof.balance == 0 {
        Some(upstream_balance)
    } else {
        None
    };
    Ok(ClaimOutcome { transfer: amount, upstream_claim })
}

/// A claim of nothing moves nothing: it leaves the proof as it was,
/// transfers nothing out of the treasury, and drains nothing upstream.
pub proof fn lemma_claim_nothing_is_noop(proof: Proof, signer: Address, upstream_balance: u64)
    requires
        claim_error(proof, signer, 0) is None,
    ensures
        (Proof { balance: (proof.balance - 0) as u64, ..proof }) == proof,
        cascade(0, (proof.balance - 0) as u64, upstream_balance) is None,
{
}

/// A positive claim that empties the proof drains the whole upstream
/// balance, whatever it is.
pub proof fn lemma_emptying_claim_drains_upstream(proof: Proof, signer: Address, upstream_balance: u64)
    requires
        claim_error(proof, signer, proof.balance) is None,
        proof.balance > 0,
    ensures
        cascade(proof.balance, (proof.balance - proof.balance) as u64, upstream_balance) == Some(upstream_balance),
{
}

} // verus!
