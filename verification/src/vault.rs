//! Vault lifecycle: a custody primitive over the native asset.
//!
//! A vault is an account with no state beyond its balance, addressed by the
//! canonical derivation of `["vault", owner]` under this program's
//! identity.  `deposit` funds a fresh vault from its owner; `withdraw`
//! sweeps the entire balance back to the owner, who must both sign and be
//! the account the vault was derived from.

use vstd::prelude::*;

use crate::account::{system_id, Account};
use crate::addr::{check_canonical_address, is_canonical_address, seeds_view, Address};
use crate::errors::CustodyError;

verus! {

/// The leading seed of every vault derivation: the bytes of `"vault"`.
pub open spec fn vault_tag() -> Seq<u8> {
    seq![0x76u8, 0x61u8, 0x75u8, 0x6cu8, 0x74u8]
}

/// The bytes of [`vault_tag`] as an owned value.
pub fn vault_tag_bytes() -> (r: Vec<u8>)
    ensures
        r@ == vault_tag(),
{
    let mut v: Vec<u8> = Vec::new();
    v.push(0x76u8);
    v.push(0x61u8);
    v.push(0x75u8);
    v.push(0x6cu8);
    v.push(0x74u8);
    proof {
        assert(v@ =~= vault_tag());
    }
    v
}

/// The seed sequence of an owner's vault.
pub open spec fn vault_seeds(owner: Seq<u8>) -> Seq<Seq<u8>> {
    seq![vault_tag(), owner]
}

/// The owned seed sequence of an owner's vault.
pub fn vault_seed_vecs(owner: &Address) -> (r: Vec<Vec<u8>>)
    ensures
        seeds_view(r@) == vault_seeds(owner@),
{
    let mut seeds: Vec<Vec<u8>> = Vec::new();
    seeds.push(vault_tag_bytes());
    seeds.push(owner.dup().bytes);
    proof {
        assert(seeds_view(seeds@) =~= vault_seeds(owner@));
    }
    seeds
}

/// The decoded payload of a deposit instruction: the amount to move, eight
/// little-endian bytes, which must be non-zero.
pub struct DepositInstructionData {
    pub amount: u64,
}

impl DepositInstructionData {
    /// Decodes a deposit payload.
    pub fn parse(data: &Vec<u8>) -> (r: Result<DepositInstructionData, CustodyError>)
        ensures
            data@.len() != 8 ==> r == Err::<DepositInstructionData, CustodyError>(
                CustodyError::InvalidInstructionData,
            ),
            data@.len() == 8 && vstd::bytes::spec_u64_from_le_bytes(data@) == 0 ==> r == Err::<
                DepositInstructionData,
                CustodyError,
            >(CustodyError::InvalidAmount),
            data@.len() == 8 && vstd::bytes::spec_u64_from_le_bytes(data@) != 0 ==> (r matches Ok(d)
                && d.amount == vstd::bytes::spec_u64_from_le_bytes(data@)),
    {
        if data.len() != 8 {
            return Err(CustodyError::InvalidInstructionData);
        }
        let amount = vstd::bytes::u64_from_le_bytes(data.as_slice());
        if amount == 0 {
            return Err(CustodyError::InvalidAmount);
        }
        Ok(DepositInstructionData { amount })
    }
}

/// What a deposit does: the resulting `(owner, vault)` balances, or the
/// error, as a function of the presented accounts and amount.
pub open spec fn deposit_outcome(
    owner: Account,
    vault: Account,
    amount: u64,
    program_id: Seq<u8>,
) -> Result<(u64, u64), CustodyError> {
    if !owner.is_signer {
        Err(CustodyError::Unauthorized)
    } else if vault.owner@ != system_id() {
        Err(CustodyError::InvalidAuthority)
    } else if vault.lamports != 0 {
        Err(CustodyError::NotInitialized)
    } else if !is_canonical_address(vault_seeds(owner.address@), program_id, vault.address@) {
        Err(CustodyError::InvalidAuthority)
    } else if amount == 0 {
        Err(CustodyError::InvalidAmount)
    } else if owner.lamports < amount {
        Err(CustodyError::InsufficientFunds)
    } else {
        Ok(((owner.lamports - amount) as u64, amount))
    }
}

/// Moves `amount` native units from the signing owner into the owner's
/// freshly derived, zero-balance vault.  Returns the resulting `(owner,
/// vault)` balances.
pub fn deposit(owner: &Account, vault: &Account, amount: u64, program_id: &Address) -> (r: Result<
    (u64, u64),
    CustodyError,
>)
    requires
        owner.wf(),
        vault.wf(),
        program_id.wf(),
    ensures
        r == deposit_outcome(*owner, *vault, amount, program_id@),
        r matches Ok(p) ==> p.0 + p.1 == owner.lamports + vault.lamports,
{
    crate::account::SignerAccount::check(owner)?;
    let system = crate::account::system_program_id();
    if !vault.owner.same(&system) {
        return Err(CustodyError::InvalidAuthority);
    }
    if vault.lamports != 0 {
        return Err(CustodyError::NotInitialized);
    }
    let seeds = vault_seed_vecs(&owner.address);
    if !check_canonical_address(&vault.address, &seeds, program_id) {
        return Err(CustodyError::InvalidAuthority);
    }
    if amount == 0 {
        return Err(CustodyError::InvalidAmount);
    }
    if owner.lamports < amount {
        return Err(CustodyError::InsufficientFunds);
    }
    Ok((owner.lamports - amount, amount))
}

/// What a withdrawal does: the resulting `(owner, vault)` balances, or the
/// error.  The owner receives the entire vault balance and the vault ends
/// at zero, its terminal state.
pub open spec fn withdraw_outcome(
    owner: Account,
    vault: Account,
    program_id: Seq<u8>,
) -> Result<(u64, u64), CustodyError> {
    if !owner.is_signer {
        Err(CustodyError::Unauthorized)
    } else if vault.owner@ != system_id() {
        Err(CustodyError::InvalidAuthority)
    } else if vault.lamports == 0 {
        Err(CustodyError::NotInitialized)
    } else if !is_canonical_address(vault_seeds(owner.address@), program_id, vault.address@) {
        Err(CustodyError::InvalidAuthority)
    } else if owner.lamports + vault.lamports > u64::MAX {
        Err(CustodyError::ArithmeticOverflow)
    } else {
        Ok(((owner.lamports + vault.lamports) as u64, 0u64))
    }
}

/// Sweeps the entire vault balance back to the signing owner; the vault
/// address is re-derived internally, never trusted from the caller.
/// Returns the resulting `(owner, vault)` balances.
pub fn withdraw(owner: &Account, vault: &Account, program_id: &Address) -> (r: Result<
    (u64, u64),
    CustodyError,
>)
    requires
        owner.wf(),
        vault.wf(),
        program_id.wf(),
    ensures
        r == withdraw_outcome(*owner, *vault, program_id@),
        r matches Ok(p) ==> p.0 + p.1 == owner.lamports + vault.lamports && p.1 == 0,
{
    crate::account::SignerAccount::check(owner)?;
    let system = crate::account::system_program_id();
    if !vault.owner.same(&system) {
        return Err(CustodyError::InvalidAuthority);
    }
    if vault.lamports == 0 {
        return Err(CustodyError::NotInitialized);
    }
    let seeds = vault_seed_vecs(&owner.address);
    if !check_canonical_address(&vault.address, &seeds, program_id) {
        return Err(CustodyError::InvalidAuthority);
    }
    match owner.lamports.checked_add(vault.lamports) {
        Some(total) => Ok((total, 0)),
        None => Err(CustodyError::ArithmeticOverflow),
    }
}

/// Withdrawing right after a deposit of `amount` moves exactly `amount`
/// back to the owner — the owner ends with the balance it started with —
/// and leaves the vault at zero, its terminal state.
pub proof fn lemma_deposit_then_withdraw(
    owner: Account,
    vault: Account,
    amount: u64,
    program_id: Seq<u8>,
    owner_mid: Account,
    vault_mid: Account,
)
    requires
        deposit_outcome(owner, vault, amount, program_id) == Ok::<(u64, u64), CustodyError>(
            (owner_mid.lamports, vault_mid.lamports),
        ),
        owner_mid.address@ == owner.address@,
        owner_mid.is_signer == owner.is_signer,
        vault_mid.address@ == vault.address@,
        vault_mid.owner@ == vault.owner@,
    ensures
        vault_mid.lamports == amount,
        withdraw_outcome(owner_mid, vault_mid, program_id) == Ok::<(u64, u64), CustodyError>(
            (owner.lamports, 0u64),
        ),
{
}

/// A withdrawal from a vault that was never funded fails with
/// `NotInitialized`, whatever the other checks would say.
pub proof fn lemma_withdraw_unfunded(owner: Account, vault: Account, program_id: Seq<u8>)
    requires
        owner.is_signer,
        vault.owner@ == system_id(),
        vault.lamports == 0,
    ensures
        withdraw_outcome(owner, vault, program_id) == Err::<(u64, u64), CustodyError>(
            CustodyError::NotInitialized,
        ),
{
}

} // verus!
