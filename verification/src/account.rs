//! Models of the accounts an instruction receives, and the role-specific
//! validators applied to them.
//!
//! The host hands each entry point an ordered list of accounts; the core
//! consumes them as plain values: an address, an owning program, a balance
//! and a signer flag, plus the decoded token-account fields where a typed
//! asset is held.

use vstd::prelude::*;

use crate::addr::{check_canonical_address, is_canonical_address, seeds_view, Address};
use crate::errors::CustodyError;

verus! {

/// A native account as presented to an instruction: its address, the
/// program that owns it, its balance of the native asset, and whether it
/// signed the enclosing transaction.
pub struct Account {
    pub address: Address,
    pub owner: Address,
    pub lamports: u64,
    pub is_signer: bool,
}

impl Account {
    pub open spec fn wf(&self) -> bool {
        self.address.wf() && self.owner.wf()
    }
}

/// A typed-asset holding decoded from a token account: which asset it
/// holds, who may move it, and how much it holds.  `lamports` is the native
/// balance backing the account's allocation, reclaimed when it is closed.
pub struct TokenAccount {
    pub address: Address,
    pub mint: Address,
    pub authority: Address,
    pub amount: u64,
    pub lamports: u64,
}

impl TokenAccount {
    pub open spec fn wf(&self) -> bool {
        self.address.wf() && self.mint.wf() && self.authority.wf()
    }
}

/// The program identities an instruction runs against: this program's own
/// identity, the token program that administers typed assets, and the
/// associated-token program that derives canonical holding addresses.
pub struct ProgramIds {
    pub program: Address,
    pub token_program: Address,
    pub ata_program: Address,
}

impl ProgramIds {
    pub open spec fn wf(&self) -> bool {
        self.program.wf() && self.token_program.wf() && self.ata_program.wf()
    }
}

/// The native system program's identity: 32 zero bytes.
pub open spec fn system_id() -> Seq<u8> {
    Seq::new(32, |i: int| 0u8)
}

/// The native system program's identity as an address value.
pub fn system_program_id() -> (r: Address)
    ensures
        r@ == system_id(),
        r.wf(),
{
    let mut bytes: Vec<u8> = Vec::new();
    let mut i: usize = 0;
    while i < 32
        invariant
            i <= 32,
            bytes@.len() == i,
            forall|j: int| 0 <= j < i ==> bytes@[j] == 0u8,
        decreases 32 - i,
    {
        bytes.push(0u8);
        i += 1;
    }
    let r = Address { bytes };
    proof {
        assert(r@ =~= system_id());
    }
    r
}

/// Checks that an account signed the enclosing transaction.
pub struct SignerAccount;

impl SignerAccount {
    pub fn check(account: &Account) -> (r: Result<(), CustodyError>)
        ensures
            account.is_signer ==> r is Ok,
            !account.is_signer ==> r == Err::<(), CustodyError>(CustodyError::Unauthorized),
    {
        if !account.is_signer {
            return Err(CustodyError::Unauthorized);
        }
        Ok(())
    }
}

/// Checks that an asset's mint account is administered by the token
/// program.
pub struct MintInterface;

impl MintInterface {
    pub fn check(mint: &Account, token_program: &Address) -> (r: Result<(), CustodyError>)
        ensures
            mint.owner@ == token_program@ ==> r is Ok,
            mint.owner@ != token_program@ ==> r == Err::<(), CustodyError>(
                CustodyError::InvalidAuthority,
            ),
    {
        if !mint.owner.same(token_program) {
            return Err(CustodyError::InvalidAuthority);
        }
        Ok(())
    }
}

/// The seed sequence of the canonical associated-token address of `owner`
/// for asset `mint`: the owner, the token program, the mint.
pub open spec fn ata_seeds(owner: Seq<u8>, token_program: Seq<u8>, mint: Seq<u8>) -> Seq<Seq<u8>> {
    seq![owner, token_program, mint]
}

/// The owned seed sequence of an associated-token address.
pub fn ata_seed_vecs(owner: &Address, token_program: &Address, mint: &Address) -> (r: Vec<Vec<u8>>)
    requires
        owner.wf(),
        token_program.wf(),
        mint.wf(),
    ensures
        seeds_view(r@) == ata_seeds(owner@, token_program@, mint@),
        crate::addr::seeds_ok(seeds_view(r@)),
{
    let mut seeds: Vec<Vec<u8>> = Vec::new();
    seeds.push(owner.dup().bytes);
    seeds.push(token_program.dup().bytes);
    seeds.push(mint.dup().bytes);
    proof {
        assert(seeds_view(seeds@) =~= ata_seeds(owner@, token_program@, mint@));
    }
    seeds
}

/// Checks and derives canonical associated-token addresses.
pub struct AssociatedTokenAccount;

impl AssociatedTokenAccount {
    /// Checks that `ata` is the canonical associated-token address of
    /// `owner` for asset `mint`.
    pub fn check(ata: &Address, owner: &Address, mint: &Address, ids: &ProgramIds) -> (r: Result<
        (),
        CustodyError,
    >)
        requires
            owner.wf(),
            mint.wf(),
            ids.wf(),
        ensures
            r is Ok <==> is_canonical_address(
                ata_seeds(owner@, ids.token_program@, mint@),
                ids.ata_program@,
                ata@,
            ),
            r is Err ==> r == Err::<(), CustodyError>(CustodyError::InvalidAuthority),
    {
        let seeds = ata_seed_vecs(owner, &ids.token_program, mint);
        if check_canonical_address(ata, &seeds, &ids.ata_program) {
            Ok(())
        } else {
            Err(CustodyError::InvalidAuthority)
        }
    }
}

/// A token account fills a given role when it sits at the canonical
/// associated-token address of `owner` for `mint`, holds that asset, and is
/// movable only by that owner.
pub open spec fn ata_valid(t: TokenAccount, owner: Seq<u8>, mint: Seq<u8>, ids: ProgramIds) -> bool {
    &&& is_canonical_address(ata_seeds(owner, ids.token_program@, mint), ids.ata_program@, t.address@)
    &&& t.mint@ == mint
    &&& t.authority@ == owner
}

impl TokenAccount {
    /// Whether this token account fills the role of `owner`'s holding of
    /// `mint` (see [`ata_valid`]).
    pub fn fills_role(&self, owner: &Address, mint: &Address, ids: &ProgramIds) -> (r: bool)
        requires
            owner.wf(),
            mint.wf(),
            ids.wf(),
        ensures
            r == ata_valid(*self, owner@, mint@, *ids),
    {
        let addr_ok = match AssociatedTokenAccount::check(&self.address, owner, mint, ids) {
            Ok(()) => true,
            Err(_) => false,
        };
        addr_ok && self.mint.same(mint) && self.authority.same(owner)
    }
}

/// Validators and lifecycle steps for accounts owned by this program.
pub struct ProgramAccount;

impl ProgramAccount {
    /// Checks that the account is owned by this program.
    pub fn check(account: &Account, program_id: &Address) -> (r: Result<(), CustodyError>)
        ensures
            account.owner@ == program_id@ ==> r is Ok,
            account.owner@ != program_id@ ==> r == Err::<(), CustodyError>(
                CustodyError::InvalidAuthority,
            ),
    {
        if !account.owner.same(program_id) {
            return Err(CustodyError::InvalidAuthority);
        }
        Ok(())
    }

    /// Closes a program-owned account: its whole native balance moves to the
    /// destination and the account's balance becomes zero.  Fails only when
    /// the destination balance would overflow.
    pub fn close(account_lamports: u64, destination_lamports: u64) -> (r: Result<
        (u64, u64),
        CustodyError,
    >)
        ensures
            destination_lamports + account_lamports <= u64::MAX ==> r == Ok::<
                (u64, u64),
                CustodyError,
            >((0u64, (destination_lamports + account_lamports) as u64)),
            destination_lamports + account_lamports > u64::MAX ==> r == Err::<
                (u64, u64),
                CustodyError,
            >(CustodyError::ArithmeticOverflow),
    {
        match destination_lamports.checked_add(account_lamports) {
            Some(dest) => Ok((0u64, dest)),
            None => Err(CustodyError::ArithmeticOverflow),
        }
    }
}

/// The byte length of a token account's data.
pub open spec fn token_data_len() -> int {
    165
}

/// The asset a token account's raw data declares.
pub open spec fn token_data_mint(data: Seq<u8>) -> Seq<u8> {
    data.subrange(0, 32)
}

/// The authority a token account's raw data declares.
pub open spec fn token_data_authority(data: Seq<u8>) -> Seq<u8> {
    data.subrange(32, 64)
}

/// The balance a token account's raw data declares (little-endian).
pub open spec fn token_data_amount(data: Seq<u8>) -> u64 {
    vstd::bytes::spec_u64_from_le_bytes(data.subrange(64, 72))
}

impl TokenAccount {
    /// Decodes a token account from its raw data together with the
    /// account's address and native balance.  Rejects data of the wrong
    /// length.
    pub fn from_account_info(
        address: Address,
        lamports: u64,
        data: &Vec<u8>,
    ) -> (r: Result<TokenAccount, CustodyError>)
        requires
            address.wf(),
        ensures
            data@.len() == token_data_len() ==> (r matches Ok(t) && t.wf() && t.address@
                == address@ && t.mint@ == token_data_mint(data@) && t.authority@
                == token_data_authority(data@) && t.amount == token_data_amount(data@)
                && t.lamports == lamports),
            data@.len() != token_data_len() ==> r == Err::<TokenAccount, CustodyError>(
                CustodyError::InvalidInstructionData,
            ),
    {
        if data.len() != 165 {
            return Err(CustodyError::InvalidInstructionData);
        }
        let mint = Address {
            bytes: vstd::slice::slice_to_vec(vstd::slice::slice_subrange(data.as_slice(), 0, 32)),
        };
        let authority = Address {
            bytes: vstd::slice::slice_to_vec(vstd::slice::slice_subrange(data.as_slice(), 32, 64)),
        };
        let amount = vstd::bytes::u64_from_le_bytes(
            vstd::slice::slice_subrange(data.as_slice(), 64, 72),
        );
        Ok(TokenAccount { address, mint, authority, amount, lamports })
    }
}

} // verus!
