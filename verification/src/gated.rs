//! Signature-gated withdrawal: custody for an owner identified only by a
//! public key.
//!
//! The vault's seeds are the raw 33-byte compressed public key rather than
//! an account address, so the holder need not sign the transaction itself.
//! Instead the withdrawal requires the instruction immediately following it
//! in the same atomically-executed batch to be a signature-verification
//! record carrying exactly one signature by that key over a 40-byte message
//! `{authorized_payer: 32 bytes, expiry: i64 little-endian}`.  Replay
//! protection is expiry-based: the same authorization works any number of
//! times until its expiry passes, and the withdrawal sweeps the whole
//! balance, so a drained vault cannot be drained again.

use vstd::prelude::*;

use crate::account::{system_id, Account};
use crate::addr::{
    candidate_address, check_canonical_address, derive_with_bump, is_canonical_address, seeds_ok,
    seeds_view, Address,
};
use crate::errors::CustodyError;
use crate::vault::{vault_tag, vault_tag_bytes};

verus! {

/// An off-band authorization extracted from the adjacent
/// signature-verification instruction: who signed, whom the message
/// authorizes to withdraw, and until when.
pub struct SignatureAuthorization {
    pub signer_pubkey: Vec<u8>,
    pub authorized_payer: Address,
    pub expiry: i64,
}

impl SignatureAuthorization {
    pub open spec fn wf(&self) -> bool {
        self.signer_pubkey@.len() == 33 && self.authorized_payer.wf()
    }
}

/// The mathematical value of a [`SignatureAuthorization`].
pub struct AuthView {
    pub signer_pubkey: Seq<u8>,
    pub authorized_payer: Seq<u8>,
    pub expiry: i64,
}

pub open spec fn auth_view(a: SignatureAuthorization) -> AuthView {
    AuthView {
        signer_pubkey: a.signer_pubkey@,
        authorized_payer: a.authorized_payer@,
        expiry: a.expiry,
    }
}

/// What the auxiliary signature-verification payload decodes to, or `None`
/// when it is rejected.  The layout is: a one-byte signature count and one
/// padding byte; then one 14-byte offsets entry per signature holding
/// little-endian `u16` fields (signature offset and instruction index,
/// public-key offset and instruction index, message offset, size and
/// instruction index); the offsets address the payload itself, marked by an
/// instruction index of `0xFFFF`.  Exactly one signature is accepted, its
/// public key is 33 bytes, and its message must be exactly 40 bytes:
/// the authorized payer's address followed by the expiry.
pub open spec fn parse_auth(data: Seq<u8>) -> Option<AuthView> {
    if data.len() < 2 {
        None
    } else if data.len() < 2 + (data[0] as int) * 14 {
        None
    } else if data[0] != 1 {
        None
    } else {
        let pk_off = vstd::bytes::spec_u16_from_le_bytes(data.subrange(6, 8)) as int;
        let pk_ix = vstd::bytes::spec_u16_from_le_bytes(data.subrange(8, 10));
        let msg_off = vstd::bytes::spec_u16_from_le_bytes(data.subrange(10, 12)) as int;
        let msg_size = vstd::bytes::spec_u16_from_le_bytes(data.subrange(12, 14)) as int;
        let msg_ix = vstd::bytes::spec_u16_from_le_bytes(data.subrange(14, 16));
        if pk_ix != 0xFFFF {
            None
        } else if pk_off + 33 > data.len() {
            None
        } else if msg_ix != 0xFFFF {
            None
        } else if msg_off + msg_size > data.len() {
            None
        } else if msg_size != 40 {
            None
        } else {
            Some(
                AuthView {
                    signer_pubkey: data.subrange(pk_off, pk_off + 33),
                    authorized_payer: data.subrange(msg_off, msg_off + 32),
                    expiry: (vstd::bytes::spec_u64_from_le_bytes(
                        data.subrange(msg_off + 32, msg_off + 40),
                    ) as i64),
                },
            )
        }
    }
}

/// Decodes the auxiliary signature-verification payload; rejects anything
/// but exactly one signature with a 40-byte message (see [`parse_auth`]).
pub fn parse_authorization(data: &Vec<u8>) -> (r: Result<SignatureAuthorization, CustodyError>)
    ensures
        r is Ok <==> parse_auth(data@) is Some,
        r matches Err(e) ==> e == CustodyError::InvalidInstructionData,
        r matches Ok(a) ==> parse_auth(data@) == Some(auth_view(a)) && a.wf(),
{
    if data.len() < 2 {
        return Err(CustodyError::InvalidInstructionData);
    }
    let n = data[0];
    if data.len() < 2 + (n as usize) * 14 {
        return Err(CustodyError::InvalidInstructionData);
    }
    if n != 1 {
        return Err(CustodyError::InvalidInstructionData);
    }
    let pk_off = vstd::bytes::u16_from_le_bytes(
        vstd::slice::slice_subrange(data.as_slice(), 6, 8),
    ) as usize;
    let pk_ix = vstd::bytes::u16_from_le_bytes(
        vstd::slice::slice_subrange(data.as_slice(), 8, 10),
    );
    let msg_off = vstd::bytes::u16_from_le_bytes(
        vstd::slice::slice_subrange(data.as_slice(), 10, 12),
    ) as usize;
    let msg_size = vstd::bytes::u16_from_le_bytes(
        vstd::slice::slice_subrange(data.as_slice(), 12, 14),
    ) as usize;
    let msg_ix = vstd::bytes::u16_from_le_bytes(
        vstd::slice::slice_subrange(data.as_slice(), 14, 16),
    );
    if pk_ix != 0xFFFF {
        return Err(CustodyError::InvalidInstructionData);
    }
    if pk_off + 33 > data.len() {
        return Err(CustodyError::InvalidInstructionData);
    }
    if msg_ix != 0xFFFF {
        return Err(CustodyError::InvalidInstructionData);
    }
    if msg_off + msg_size > data.len() {
        return Err(CustodyError::InvalidInstructionData);
    }
    if msg_size != 40 {
        return Err(CustodyError::InvalidInstructionData);
    }
    let signer_pubkey = vstd::slice::slice_to_vec(
        vstd::slice::slice_subrange(data.as_slice(), pk_off, pk_off + 33),
    );
    let payer_bytes = vstd::slice::slice_to_vec(
        vstd::slice::slice_subrange(data.as_slice(), msg_off, msg_off + 32),
    );
    let expiry_word = vstd::bytes::u64_from_le_bytes(
        vstd::slice::slice_subrange(data.as_slice(), msg_off + 32, msg_off + 40),
    );
    let expiry = #[verifier::truncate] (expiry_word as i64);
    Ok(
        SignatureAuthorization {
            signer_pubkey,
            authorized_payer: Address { bytes: payer_bytes },
            expiry,
        },
    )
}

/// The seed sequence of a signature-gated vault: the vault tag, the public
/// key's leading byte, and its remaining 32 bytes.
pub open spec fn gated_vault_seeds(pubkey: Seq<u8>) -> Seq<Seq<u8>> {
    seq![vault_tag(), pubkey.subrange(0, 1), pubkey.subrange(1, 33)]
}

/// The owned seed sequence of a signature-gated vault.
pub fn gated_vault_seed_vecs(pubkey: &Vec<u8>) -> (r: Vec<Vec<u8>>)
    requires
        pubkey@.len() == 33,
    ensures
        seeds_view(r@) == gated_vault_seeds(pubkey@),
        seeds_ok(seeds_view(r@)),
{
    let mut seeds: Vec<Vec<u8>> = Vec::new();
    seeds.push(vault_tag_bytes());
    seeds.push(vstd::slice::slice_to_vec(vstd::slice::slice_subrange(pubkey.as_slice(), 0, 1)));
    seeds.push(vstd::slice::slice_to_vec(vstd::slice::slice_subrange(pubkey.as_slice(), 1, 33)));
    proof {
        assert(seeds_view(seeds@) =~= gated_vault_seeds(pubkey@));
    }
    seeds
}

/// The decoded payload of a gated deposit: the vault owner's compressed
/// public key followed by the amount, 41 bytes in all.
pub struct DepositInstructionData {
    pub pubkey: Vec<u8>,
    pub amount: u64,
}

impl DepositInstructionData {
    /// Decodes a gated-deposit payload.
    pub fn parse(data: &Vec<u8>) -> (r: Result<DepositInstructionData, CustodyError>)
        ensures
            data@.len() != 41 ==> r == Err::<DepositInstructionData, CustodyError>(
                CustodyError::InvalidInstructionData,
            ),
            data@.len() == 41 ==> (r matches Ok(d) && d.pubkey@ == data@.subrange(0, 33)
                && d.amount == vstd::bytes::spec_u64_from_le_bytes(data@.subrange(33, 41))),
    {
        if data.len() != 41 {
            return Err(CustodyError::InvalidInstructionData);
        }
        let pubkey = vstd::slice::slice_to_vec(vstd::slice::slice_subrange(data.as_slice(), 0, 33));
        let amount = vstd::bytes::u64_from_le_bytes(
            vstd::slice::slice_subrange(data.as_slice(), 33, 41),
        );
        Ok(DepositInstructionData { pubkey, amount })
    }
}

/// The decoded payload of a gated withdrawal: the claimed bump byte.
pub struct WithdrawInstructionData {
    pub bump: u8,
}

impl WithdrawInstructionData {
    /// Decodes a gated-withdrawal payload: its first byte.
    pub fn parse(data: &Vec<u8>) -> (r: Result<WithdrawInstructionData, CustodyError>)
        ensures
            data@.len() == 0 ==> r == Err::<WithdrawInstructionData, CustodyError>(
                CustodyError::InvalidInstructionData,
            ),
            data@.len() > 0 ==> (r matches Ok(d) && d.bump == data@[0]),
    {
        if data.len() == 0 {
            return Err(CustodyError::InvalidInstructionData);
        }
        Ok(WithdrawInstructionData { bump: data[0] })
    }
}

/// What a gated deposit does: the resulting `(payer, vault)` balances, or
/// the error.  First use only: the vault must sit at zero.
pub open spec fn deposit_outcome(
    payer: Account,
    vault: Account,
    pubkey: Seq<u8>,
    amount: u64,
    program_id: Seq<u8>,
) -> Result<(u64, u64), CustodyError> {
    if !payer.is_signer {
        Err(CustodyError::Unauthorized)
    } else if vault.owner@ != system_id() {
        Err(CustodyError::InvalidAuthority)
    } else if vault.lamports != 0 {
        Err(CustodyError::NotInitialized)
    } else if !is_canonical_address(gated_vault_seeds(pubkey), program_id, vault.address@) {
        Err(CustodyError::InvalidAuthority)
    } else if amount == 0 {
        Err(CustodyError::InvalidAmount)
    } else if payer.lamports < amount {
        Err(CustodyError::InsufficientFunds)
    } else {
        Ok(((payer.lamports - amount) as u64, amount))
    }
}

/// Funds the zero-balance vault derived from `pubkey` with `amount` from
/// the signing payer.  Returns the resulting `(payer, vault)` balances.
pub fn deposit(
    payer: &Account,
    vault: &Account,
    pubkey: &Vec<u8>,
    amount: u64,
    program_id: &Address,
) -> (r: Result<(u64, u64), CustodyError>)
    requires
        payer.wf(),
        vault.wf(),
        pubkey@.len() == 33,
        program_id.wf(),
    ensures
        r == deposit_outcome(*payer, *vault, pubkey@, amount, program_id@),
        r matches Ok(p) ==> p.0 + p.1 == payer.lamports + vault.lamports,
{
    crate::account::SignerAccount::check(payer)?;
    let system = crate::account::system_program_id();
    if !vault.owner.same(&system) {
        return Err(CustodyError::InvalidAuthority);
    }
    if vault.lamports != 0 {
        return Err(CustodyError::NotInitialized);
    }
    let seeds = gated_vault_seed_vecs(pubkey);
    if !check_canonical_address(&vault.address, &seeds, program_id) {
        return Err(CustodyError::InvalidAuthority);
    }
    if amount == 0 {
        return Err(CustodyError::InvalidAmount);
    }
    if payer.lamports < amount {
        return Err(CustodyError::InsufficientFunds);
    }
    Ok((payer.lamports - amount, amount))
}

/// What a gated withdrawal does: the resulting `(payer, vault)` balances,
/// or the error.  The payload must decode to exactly one signature whose
/// message authorizes this payer and has not expired, and the vault address
/// must re-derive from the signer's key under the claimed bump.
pub open spec fn withdraw_outcome(
    payer: Account,
    vault: Account,
    payload: Seq<u8>,
    now: i64,
    bump: u8,
    program_id: Seq<u8>,
) -> Result<(u64, u64), CustodyError> {
    if !payer.is_signer {
        Err(CustodyError::Unauthorized)
    } else if vault.owner@ != system_id() {
        Err(CustodyError::InvalidAuthority)
    } else if vault.lamports == 0 {
        Err(CustodyError::NotInitialized)
    } else if parse_auth(payload) is None {
        Err(CustodyError::InvalidInstructionData)
    } else {
        let auth = parse_auth(payload)->Some_0;
        if auth.authorized_payer != payer.address@ {
            Err(CustodyError::Unauthorized)
        } else if now > auth.expiry {
            Err(CustodyError::Expired)
        } else if candidate_address(gated_vault_seeds(auth.signer_pubkey).push(seq![bump]),
        program_id) != Some(vault.address@) {
            Err(CustodyError::InvalidAuthority)
        } else if payer.lamports + vault.lamports > u64::MAX {
            Err(CustodyError::ArithmeticOverflow)
        } else {
            Ok(((payer.lamports + vault.lamports) as u64, 0u64))
        }
    }
}

/// A withdrawal sweeps the whole balance, so replaying the same
/// authorization against the drained vault is rejected as
/// `NotInitialized`: a pre-expiry authorization is live only until the
/// first successful withdrawal.
pub proof fn lemma_drained_vault_rejects_replay(
    payer: Account,
    vault: Account,
    payload: Seq<u8>,
    now: i64,
    bump: u8,
    program_id: Seq<u8>,
)
    requires
        payer.is_signer,
        vault.owner@ == system_id(),
        vault.lamports == 0,
    ensures
        withdraw_outcome(payer, vault, payload, now, bump, program_id) == Err::<
            (u64, u64),
            CustodyError,
        >(CustodyError::NotInitialized),
{
}

/// Sweeps the whole vault balance to the signing payer on the strength of
/// the adjacent instruction's payload and the current time.  Returns the
/// resulting `(payer, vault)` balances.
pub fn withdraw(
    payer: &Account,
    vault: &Account,
    payload: &Vec<u8>,
    now: i64,
    bump: u8,
    program_id: &Address,
) -> (r: Result<(u64, u64), CustodyError>)
    requires
        payer.wf(),
        vault.wf(),
        program_id.wf(),
    ensures
        r == withdraw_outcome(*payer, *vault, payload@, now, bump, program_id@),
        r matches Ok(p) ==> p.0 + p.1 == payer.lamports + vault.lamports && p.1 == 0,
{
    crate::account::SignerAccount::check(payer)?;
    let system = crate::account::system_program_id();
    if !vault.owner.same(&system) {
        return Err(CustodyError::InvalidAuthority);
    }
    if vault.lamports == 0 {
        return Err(CustodyError::NotInitialized);
    }
    let auth = parse_authorization(payload)?;
    if !auth.authorized_payer.same(&payer.address) {
        return Err(CustodyError::Unauthorized);
    }
    if now > auth.expiry {
        return Err(CustodyError::Expired);
    }
    let seeds = gated_vault_seed_vecs(&auth.signer_pubkey);
    let derived = derive_with_bump(&seeds, bump, program_id);
    let vault_ok = match &derived {
        Some(a) => a.same(&vault.address),
        None => false,
    };
    if !vault_ok {
        return Err(CustodyError::InvalidAuthority);
    }
    match payer.lamports.checked_add(vault.lamports) {
        Some(total) => Ok((total, 0)),
        None => Err(CustodyError::ArithmeticOverflow),
    }
}

} // verus!
