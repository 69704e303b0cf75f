use vstd::prelude::*;
use crate::address::Address;
use crate::error::CoalError;
use crate::state::Config;

verus! {

/// A token account: its owner, the mint of its tokens, and its balance.
#[derive(Clone, Copy, Debug)]
pub struct TokenAccount {
    pub owner: Address,
    pub mint: Address,
    pub amount: u64,
}

/// A token mint and its circulating supply.
#[derive(Clone, Copy, Debug)]
pub struct Mint {
    pub address: Address,
    pub supply: u64,
}

/// The token ledger's own invariant: a token account of `mint` holds no
/// more than the mint's supply. Every state the token program reaches keeps
/// it; the upgrade relies on it to know that crediting cannot overflow.
pub open spec fn holds_within_supply(account: TokenAccount, mint: Mint) -> bool {
    account.amount <= mint.supply
}

/// The account after `amount` leaves it.
pub open spec fn debited(a: TokenAccount, amount: u64) -> TokenAccount {
    TokenAccount { amount: (a.amount - amount) as u64, ..a }
}

/// The account after `amount` arrives in it.
pub open spec fn credited(a: TokenAccount, amount: u64) -> TokenAccount {
    TokenAccount { amount: (a.amount + amount) as u64, ..a }
}

/// The mint after `amount` is burned.
pub open spec fn burned(m: Mint, amount: u64) -> Mint {
    Mint { supply: (m.supply - amount) as u64, ..m }
}

/// The mint after `amount` is minted.
pub open spec fn minted(m: Mint, amount: u64) -> Mint {
    Mint { supply: (m.supply + amount) as u64, ..m }
}

/// Why an upgrade fails, if it does.
pub open spec fn upgrade_error(
    config: Config,
    signer: Address,
    sender: TokenAccount,
    legacy_mint: Mint,
    beneficiary: TokenAccount,
    mint: Mint,
    amount: u64,
) -> Option<CoalError> {
    if config.mint@ != mint.address@ || beneficiary.owner@ != signer@ || beneficiary.mint@ != config.mint@
        || legacy_mint.address@ != config.migration_mint@ || sender.owner@ != signer@
        || sender.mint@ != config.migration_mint@ {
        Some(CoalError::InvalidAccountData)
    } else if sender.amount < amount {
        Some(CoalError::InsufficientFunds)
    } else if mint.supply + amount > config.max_supply {
        Some(CoalError::MaxSupply)
    } else {
        None
    }
}

/// Converts `amount` of the legacy token held by `sender` into as much of
/// the current token for `beneficiary`, one for one: the legacy tokens are
/// burned and the current ones minted, unless the mint would pass the
/// config's maximum supply. Nothing changes when it fails.
pub fn process_upgrade(
    config: &Config,
    signer: &Address,
    sender: &mut TokenAccount,
    legacy_mint: &mut Mint,
    beneficiary: &mut TokenAccount,
    mint: &mut Mint,
    amount: u64,
) -> (r: Result<(), CoalError>)
    requires
        holds_within_supply(*old(sender), *old(legacy_mint)),
        holds_within_supply(*old(beneficiary), *old(mint)),
    ensures
        r is Ok <==> upgrade_error(*config, *signer, *old(sender), *old(legacy_mint), *old(beneficiary), *old(mint), amount) is None,
        r is Err ==> r->Err_0 == upgrade_error(*config, *signer, *old(sender), *old(legacy_mint), *old(beneficiary), *old(mint), amount)->Some_0,
        r is Err ==> *final(sender) == *old(sender) && *final(legacy_mint) == *old(legacy_mint)
            && *final(beneficiary) == *old(beneficiary) && *final(mint) == *old(mint),
        r is Ok ==> *final(sender) == debited(*old(sender), amount)
            && *final(legacy_mint) == burned(*old(legacy_mint), amount)
            && *final(beneficiary) == credited(*old(beneficiary), amount)
            && *final(mint) == minted(*old(mint), amount),
        holds_within_supply(*final(sender), *final(legacy_mint)),
        holds_within_supply(*final(beneficiary), *final(mint)),
{
    if !config.mint.same(&mint.address) || !beneficiary.owner.same(signer) || !beneficiary.mint.same(&config.mint)
        || !legacy_mint.address.same(&config.migration_mint) || !sender.owner.same(signer)
        || !sender.mint.same(&config.migration_mint) {
        return Err(CoalError::InvalidAccountData);
    }
    if sender.amount < amount {
        return Err(CoalError::InsufficientFunds);
    }
    if amount > config.max_supply || mint.supply > config.max_supply - amount {
        return Err(CoalError::MaxSupply);
    }
    sender.amount = sender.amount - amount;
    legacy_mint.supply = legacy_mint.supply - amount;
    beneficiary.amount = beneficiary.amount + amount;
    mint.supply = mint.supply + amount;
    Ok(())
}

/// An upgrade keeps the holder's total value: what leaves the legacy
/// balance arrives in the current one and the two supplies move by the same
/// amount, and one that would pass the maximum supply fails (so, by the
/// contract of `process_upgrade`, it credits nothing).
pub proof fn lemma_upgrade_conserves_value(
    config: Config,
    signer: Address,
    sender: TokenAccount,
    legacy_mint: Mint,
    beneficiary: TokenAccount,
    mint: Mint,
    amount: u64,
)
    requires
        holds_within_supply(sender, legacy_mint),
        holds_within_supply(beneficiary, mint),
    ensures
        upgrade_error(config, signer, sender, legacy_mint, beneficiary, mint, amount) is None ==> {
            &&& debited(sender, amount).amount + credited(beneficiary, amount).amount
                == sender.amount + beneficiary.amount
            &&& burned(legacy_mint, amount).supply + minted(mint, amount).supply
                == legacy_mint.supply + mint.supply
            &&& credited(beneficiary, amount).amount == beneficiary.amount + amount
            &&& minted(mint, amount).supply <= config.max_supply
            &&& holds_within_supply(debited(sender, amount), burned(legacy_mint, amount))
            &&& holds_within_supply(credited(beneficiary, amount), minted(mint, amount))
        },
        mint.supply + amount > config.max_supply ==>
            upgrade_error(config, signer, sender, legacy_mint, beneficiary, mint, amount) is Some,
{
}

} // verus!
