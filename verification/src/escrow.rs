//! Escrow swap protocol: a two-party atomic conditional exchange of two
//! distinct asset types.
//!
//! `make` creates a persistent escrow record at the canonical derivation of
//! `["escrow", maker, seed]` and funds a custodial vault — a token account
//! whose authority is the record itself, a program-owned address with no
//! private key — with the maker's deposit of asset A.  The record is
//! consumed terminally by exactly one of `take` (the counterparty pays the
//! requested amount of asset B to the maker and receives the whole vault)
//! or `refund` (the whole vault returns to the maker).  Both terminal steps
//! close the custodial vault and the record, so a closed escrow can never
//! be replayed.

use vstd::prelude::*;

use crate::account::{
    ata_seed_vecs, ata_seeds, ata_valid, Account, MintInterface, ProgramAccount, ProgramIds,
    SignerAccount, TokenAccount,
};
use crate::addr::{
    candidate_address, canonical_exists, derive_with_bump, is_canonical_address, is_canonical_pair,
    lemma_canonical_pair_unique, seeds_ok, seeds_view, Address,
};
use crate::errors::CustodyError;

verus! {

/// The leading seed of every escrow-record derivation: the bytes of
/// `"escrow"`.
pub open spec fn escrow_tag() -> Seq<u8> {
    seq![0x65u8, 0x73u8, 0x63u8, 0x72u8, 0x6fu8, 0x77u8]
}

/// The bytes of [`escrow_tag`] as an owned value.
pub fn escrow_tag_bytes() -> (r: Vec<u8>)
    ensures
        r@ == escrow_tag(),
{
    let mut v: Vec<u8> = Vec::new();
    v.push(0x65u8);
    v.push(0x73u8);
    v.push(0x63u8);
    v.push(0x72u8);
    v.push(0x6fu8);
    v.push(0x77u8);
    proof {
        assert(v@ =~= escrow_tag());
    }
    v
}

/// The seed sequence of an escrow record: the tag, the maker's address and
/// the maker-chosen uniqueness salt in little-endian bytes.
pub open spec fn escrow_seeds(maker: Seq<u8>, seed: u64) -> Seq<Seq<u8>> {
    seq![escrow_tag(), maker, vstd::bytes::spec_u64_to_le_bytes(seed)]
}

/// The owned seed sequence of an escrow record.
pub fn escrow_seed_vecs(maker: &Address, seed: u64) -> (r: Vec<Vec<u8>>)
    requires
        maker.wf(),
    ensures
        seeds_view(r@) == escrow_seeds(maker@, seed),
        seeds_ok(seeds_view(r@)),
{
    let mut seeds: Vec<Vec<u8>> = Vec::new();
    seeds.push(escrow_tag_bytes());
    seeds.push(maker.dup().bytes);
    seeds.push(vstd::bytes::u64_to_le_bytes(seed));
    proof {
        vstd::bytes::lemma_auto_spec_u64_to_from_le_bytes();
        assert(seeds_view(seeds@) =~= escrow_seeds(maker@, seed));
    }
    seeds
}

/// The persistent state of one escrow: the uniqueness salt, the maker, the
/// two asset types, the amount of asset B the maker asks for, and the bump
/// of the record's own canonical derivation.
pub struct Escrow {
    pub seed: u64,
    pub maker: Address,
    pub mint_a: Address,
    pub mint_b: Address,
    pub receive: u64,
    pub bump: u8,
}

impl Escrow {
    pub open spec fn wf(&self) -> bool {
        self.maker.wf() && self.mint_a.wf() && self.mint_b.wf()
    }
}

/// Why `save_escrow` rejects, or `None` when it succeeds.
pub open spec fn save_escrow_err(
    maker: Account,
    seed: u64,
    receive: u64,
    program_id: Seq<u8>,
) -> Option<CustodyError> {
    if !maker.is_signer {
        Some(CustodyError::Unauthorized)
    } else if receive == 0 {
        Some(CustodyError::InvalidAmount)
    } else if !canonical_exists(escrow_seeds(maker.address@, seed), program_id) {
        Some(CustodyError::InvalidAuthority)
    } else {
        None
    }
}

/// Derives the escrow record's canonical address and builds the record the
/// maker asks to persist.  Requires the maker's signature and a positive
/// requested amount.
pub fn save_escrow(
    maker: &Account,
    seed: u64,
    mint_a: &Address,
    mint_b: &Address,
    receive: u64,
    ids: &ProgramIds,
) -> (r: Result<(Escrow, Address), CustodyError>)
    requires
        maker.wf(),
        mint_a.wf(),
        mint_b.wf(),
        ids.wf(),
    ensures
        r matches Err(e) ==> save_escrow_err(*maker, seed, receive, ids.program@) == Some(e),
        r is Ok <==> save_escrow_err(*maker, seed, receive, ids.program@) is None,
        r matches Ok(p) ==> (p.0.seed == seed && p.0.maker@ == maker.address@ && p.0.mint_a@
            == mint_a@ && p.0.mint_b@ == mint_b@ && p.0.receive == receive && p.0.wf() && p.1.wf()
            && is_canonical_pair(
            escrow_seeds(maker.address@, seed),
            ids.program@,
            p.1@,
            p.0.bump,
        )),
{
    SignerAccount::check(maker)?;
    if receive == 0 {
        return Err(CustodyError::InvalidAmount);
    }
    let seeds = escrow_seed_vecs(&maker.address, seed);
    match crate::addr::derive(&seeds, &ids.program) {
        Some((escrow_address, bump)) => {
            let record = Escrow {
                seed,
                maker: maker.address.dup(),
                mint_a: mint_a.dup(),
                mint_b: mint_b.dup(),
                receive,
                bump,
            };
            Ok((record, escrow_address))
        },
        None => Err(CustodyError::InvalidAuthority),
    }
}

/// What funding the custodial vault does: the resulting `(maker holding,
/// vault)` balances of asset A, or the error.
pub open spec fn vault_funding_outcome(
    escrow_address: Seq<u8>,
    maker_address: Seq<u8>,
    mint_a: Seq<u8>,
    maker_ata_a: TokenAccount,
    amount: u64,
    ids: ProgramIds,
) -> Result<(u64, u64), CustodyError> {
    if amount == 0 {
        Err(CustodyError::InvalidAmount)
    } else if !(maker_ata_a.mint@ == mint_a && maker_ata_a.authority@ == maker_address) {
        Err(CustodyError::InvalidAuthority)
    } else if !canonical_exists(ata_seeds(escrow_address, ids.token_program@, mint_a),
    ids.ata_program@) {
        Err(CustodyError::InvalidAuthority)
    } else if maker_ata_a.amount < amount {
        Err(CustodyError::InsufficientFunds)
    } else {
        Ok(((maker_ata_a.amount - amount) as u64, amount))
    }
}

/// Derives the custodial vault — the associated-token account of the escrow
/// record for asset A — and moves the maker's deposit into it.  Returns the
/// vault and the maker's remaining asset-A balance.
pub fn deposit_to_vault(
    escrow_address: &Address,
    maker_address: &Address,
    mint_a: &Address,
    maker_ata_a: &TokenAccount,
    amount: u64,
    ids: &ProgramIds,
) -> (r: Result<(TokenAccount, u64), CustodyError>)
    requires
        escrow_address.wf(),
        maker_address.wf(),
        mint_a.wf(),
        maker_ata_a.wf(),
        ids.wf(),
    ensures
        r matches Err(e) ==> vault_funding_outcome(
            escrow_address@,
            maker_address@,
            mint_a@,
            *maker_ata_a,
            amount,
            *ids,
        ) == Err::<(u64, u64), CustodyError>(e),
        r matches Ok(o) ==> (vault_funding_outcome(
            escrow_address@,
            maker_address@,
            mint_a@,
            *maker_ata_a,
            amount,
            *ids,
        ) == Ok::<(u64, u64), CustodyError>((o.1, o.0.amount)) && o.0.wf() && o.0.mint@ == mint_a@
            && o.0.authority@ == escrow_address@ && o.0.lamports == 0 && is_canonical_address(
            ata_seeds(escrow_address@, ids.token_program@, mint_a@),
            ids.ata_program@,
            o.0.address@,
        )),
{
    if amount == 0 {
        return Err(CustodyError::InvalidAmount);
    }
    if !(maker_ata_a.mint.same(mint_a) && maker_ata_a.authority.same(maker_address)) {
        return Err(CustodyError::InvalidAuthority);
    }
    let seeds = ata_seed_vecs(escrow_address, &ids.token_program, mint_a);
    match crate::addr::derive(&seeds, &ids.ata_program) {
        Some((vault_address, _bump)) => {
            if maker_ata_a.amount < amount {
                return Err(CustodyError::InsufficientFunds);
            }
            let vault = TokenAccount {
                address: vault_address,
                mint: mint_a.dup(),
                authority: escrow_address.dup(),
                amount,
                lamports: 0,
            };
            Ok((vault, maker_ata_a.amount - amount))
        },
        None => Err(CustodyError::InvalidAuthority),
    }
}

/// The make-time transfer conserves asset A: between the maker's holding
/// and the custodial vault, the deposit only moves — the sum is exactly
/// what the maker held before, and it stays fixed until a terminal step.
pub proof fn lemma_funding_conserves(
    escrow_address: Seq<u8>,
    maker_address: Seq<u8>,
    mint_a: Seq<u8>,
    maker_ata_a: TokenAccount,
    amount: u64,
    ids: ProgramIds,
    maker_left: u64,
    vault_amount: u64,
)
    requires
        vault_funding_outcome(escrow_address, maker_address, mint_a, maker_ata_a, amount, ids)
            == Ok::<(u64, u64), CustodyError>((maker_left, vault_amount)),
    ensures
        maker_left + vault_amount == maker_ata_a.amount,
        vault_amount == amount,
{
}

/// Everything `make` creates or changes: the persisted record, its address,
/// the funded custodial vault, and the maker's remaining asset-A balance.
pub struct MakeOutcome {
    pub escrow: Escrow,
    pub escrow_address: Address,
    pub vault: TokenAccount,
    pub maker_ata_a_amount: u64,
}

/// Opens an escrow: persists the record at its canonical derivation and
/// funds the custodial vault with `amount` of asset A from the maker.
pub fn make(
    maker: &Account,
    seed: u64,
    mint_a: &Address,
    mint_b: &Address,
    receive: u64,
    amount: u64,
    maker_ata_a: &TokenAccount,
    ids: &ProgramIds,
) -> (r: Result<MakeOutcome, CustodyError>)
    requires
        maker.wf(),
        mint_a.wf(),
        mint_b.wf(),
        maker_ata_a.wf(),
        ids.wf(),
    ensures
        save_escrow_err(*maker, seed, receive, ids.program@) matches Some(e) ==> r == Err::<
            MakeOutcome,
            CustodyError,
        >(e),
        r matches Err(e) ==> (save_escrow_err(*maker, seed, receive, ids.program@) is None
            ==> forall|ea: Seq<u8>, eb: u8|
            is_canonical_pair(escrow_seeds(maker.address@, seed), ids.program@, ea, eb)
                ==> vault_funding_outcome(ea, maker.address@, mint_a@, *maker_ata_a, amount, *ids)
                == Err::<(u64, u64), CustodyError>(e)),
        r matches Ok(o) ==> (o.escrow.seed == seed && o.escrow.maker@ == maker.address@
            && o.escrow.mint_a@ == mint_a@ && o.escrow.mint_b@ == mint_b@ && o.escrow.receive
            == receive && o.escrow.wf() && o.escrow_address.wf() && o.vault.wf()
            && is_canonical_pair(
            escrow_seeds(maker.address@, seed),
            ids.program@,
            o.escrow_address@,
            o.escrow.bump,
        ) && is_canonical_address(
            ata_seeds(o.escrow_address@, ids.token_program@, mint_a@),
            ids.ata_program@,
            o.vault.address@,
        ) && o.vault.mint@ == mint_a@ && o.vault.authority@ == o.escrow_address@ && o.vault.amount
            == amount && o.vault.lamports == 0 && o.maker_ata_a_amount + o.vault.amount
            == maker_ata_a.amount && amount > 0 && receive > 0 && vault_funding_outcome(
            o.escrow_address@,
            maker.address@,
            mint_a@,
            *maker_ata_a,
            amount,
            *ids,
        ) == Ok::<(u64, u64), CustodyError>((o.maker_ata_a_amount, o.vault.amount))),
{
    let (escrow, escrow_address) = save_escrow(maker, seed, mint_a, mint_b, receive, ids)?;
    let ghost ea = escrow_address@;
    let ghost eb = escrow.bump;
    match deposit_to_vault(&escrow_address, &maker.address, mint_a, maker_ata_a, amount, ids) {
        Ok((vault, maker_ata_a_amount)) => Ok(
            MakeOutcome { escrow, escrow_address, vault, maker_ata_a_amount },
        ),
        Err(e) => {
            proof {
                assert forall|ea2: Seq<u8>, eb2: u8|
                    is_canonical_pair(
                        escrow_seeds(maker.address@, seed),
                        ids.program@,
                        ea2,
                        eb2,
                    ) implies vault_funding_outcome(
                    ea2,
                    maker.address@,
                    mint_a@,
                    *maker_ata_a,
                    amount,
                    *ids,
                ) == Err::<(u64, u64), CustodyError>(e) by {
                    lemma_canonical_pair_unique(
                        escrow_seeds(maker.address@, seed),
                        ids.program@,
                        ea2,
                        eb2,
                        ea,
                        eb,
                    );
                }
            }
            Err(e)
        },
    }
}

/// The balances left by a completed `take`, every closed account at zero.
#[derive(Clone, Copy, Debug, PartialEq, Eq, Structural)]
pub struct TakeBalances {
    pub maker_ata_b_amount: u64,
    pub taker_ata_b_amount: u64,
    pub taker_ata_a_amount: u64,
    pub vault_amount: u64,
    pub taker_lamports: u64,
    pub maker_lamports: u64,
    pub escrow_lamports: u64,
    pub vault_lamports: u64,
}

/// What a `take` does, as a function of the presented accounts: the
/// resulting balances, or the error.  The counterparty pays the requested
/// amount of asset B to the maker, receives the whole custodial vault, and
/// both the vault and the record are closed — their allocations reclaimed
/// by the taker and the maker respectively.
pub open spec fn take_outcome(
    taker: Account,
    maker: Account,
    escrow: Escrow,
    escrow_account: Account,
    vault: TokenAccount,
    taker_ata_a: TokenAccount,
    taker_ata_b: TokenAccount,
    maker_ata_b: TokenAccount,
    ids: ProgramIds,
) -> Result<TakeBalances, CustodyError> {
    if !taker.is_signer {
        Err(CustodyError::Unauthorized)
    } else if escrow_account.owner@ != ids.program@ {
        Err(CustodyError::InvalidAuthority)
    } else if escrow_account.lamports == 0 {
        Err(CustodyError::NotInitialized)
    } else if candidate_address(
        escrow_seeds(escrow.maker@, escrow.seed).push(seq![escrow.bump]),
        ids.program@,
    ) != Some(escrow_account.address@) {
        Err(CustodyError::InvalidAuthority)
    } else if escrow.maker@ != maker.address@ {
        Err(CustodyError::InvalidAuthority)
    } else if !ata_valid(vault, escrow_account.address@, escrow.mint_a@, ids) {
        Err(CustodyError::InvalidAuthority)
    } else if !ata_valid(taker_ata_b, taker.address@, escrow.mint_b@, ids) {
        Err(CustodyError::InvalidAuthority)
    } else if !ata_valid(maker_ata_b, maker.address@, escrow.mint_b@, ids) {
        Err(CustodyError::InvalidAuthority)
    } else if !ata_valid(taker_ata_a, taker.address@, escrow.mint_a@, ids) {
        Err(CustodyError::InvalidAuthority)
    } else if taker_ata_b.amount < escrow.receive {
        Err(CustodyError::InsufficientFunds)
    } else if maker_ata_b.amount + escrow.receive > u64::MAX {
        Err(CustodyError::ArithmeticOverflow)
    } else if taker_ata_a.amount + vault.amount > u64::MAX {
        Err(CustodyError::ArithmeticOverflow)
    } else if taker.lamports + vault.lamports > u64::MAX {
        Err(CustodyError::ArithmeticOverflow)
    } else if maker.lamports + escrow_account.lamports > u64::MAX {
        Err(CustodyError::ArithmeticOverflow)
    } else {
        Ok(
            TakeBalances {
                maker_ata_b_amount: (maker_ata_b.amount + escrow.receive) as u64,
                taker_ata_b_amount: (taker_ata_b.amount - escrow.receive) as u64,
                taker_ata_a_amount: (taker_ata_a.amount + vault.amount) as u64,
                vault_amount: 0u64,
                taker_lamports: (taker.lamports + vault.lamports) as u64,
                maker_lamports: (maker.lamports + escrow_account.lamports) as u64,
                escrow_lamports: 0u64,
                vault_lamports: 0u64,
            },
        )
    }
}

/// Completes the swap.  Atomic: the caller applies the returned balances
/// as one unit or, on an error, changes nothing.
pub fn take(
    taker: &Account,
    maker: &Account,
    escrow: &Escrow,
    escrow_account: &Account,
    vault: &TokenAccount,
    taker_ata_a: &TokenAccount,
    taker_ata_b: &TokenAccount,
    maker_ata_b: &TokenAccount,
    ids: &ProgramIds,
) -> (r: Result<TakeBalances, CustodyError>)
    requires
        taker.wf(),
        maker.wf(),
        escrow.wf(),
        escrow_account.wf(),
        vault.wf(),
        taker_ata_a.wf(),
        taker_ata_b.wf(),
        maker_ata_b.wf(),
        ids.wf(),
    ensures
        r == take_outcome(
            *taker,
            *maker,
            *escrow,
            *escrow_account,
            *vault,
            *taker_ata_a,
            *taker_ata_b,
            *maker_ata_b,
            *ids,
        ),
        r matches Ok(b) ==> b.taker_ata_a_amount + b.vault_amount == taker_ata_a.amount
            + vault.amount && b.maker_ata_b_amount + b.taker_ata_b_amount == maker_ata_b.amount
            + taker_ata_b.amount,
{
    SignerAccount::check(taker)?;
    ProgramAccount::check(escrow_account, &ids.program)?;
    if escrow_account.lamports == 0 {
        return Err(CustodyError::NotInitialized);
    }
    let seeds = escrow_seed_vecs(&escrow.maker, escrow.seed);
    let derived = derive_with_bump(&seeds, escrow.bump, &ids.program);
    let record_ok = match &derived {
        Some(a) => a.same(&escrow_account.address),
        None => false,
    };
    if !record_ok {
        return Err(CustodyError::InvalidAuthority);
    }
    if !escrow.maker.same(&maker.address) {
        return Err(CustodyError::InvalidAuthority);
    }
    if !vault.fills_role(&escrow_account.address, &escrow.mint_a, ids) {
        return Err(CustodyError::InvalidAuthority);
    }
    if !taker_ata_b.fills_role(&taker.address, &escrow.mint_b, ids) {
        return Err(CustodyError::InvalidAuthority);
    }
    if !maker_ata_b.fills_role(&maker.address, &escrow.mint_b, ids) {
        return Err(CustodyError::InvalidAuthority);
    }
    if !taker_ata_a.fills_role(&taker.address, &escrow.mint_a, ids) {
        return Err(CustodyError::InvalidAuthority);
    }
    if taker_ata_b.amount < escrow.receive {
        return Err(CustodyError::InsufficientFunds);
    }
    let maker_ata_b_amount = match maker_ata_b.amount.checked_add(escrow.receive) {
        Some(v) => v,
        None => {
            return Err(CustodyError::ArithmeticOverflow);
        },
    };
    let taker_ata_a_amount = match taker_ata_a.amount.checked_add(vault.amount) {
        Some(v) => v,
        None => {
            return Err(CustodyError::ArithmeticOverflow);
        },
    };
    let taker_lamports = match taker.lamports.checked_add(vault.lamports) {
        Some(v) => v,
        None => {
            return Err(CustodyError::ArithmeticOverflow);
        },
    };
    let maker_lamports = match maker.lamports.checked_add(escrow_account.lamports) {
        Some(v) => v,
        None => {
            return Err(CustodyError::ArithmeticOverflow);
        },
    };
    Ok(
        TakeBalances {
            maker_ata_b_amount,
            taker_ata_b_amount: taker_ata_b.amount - escrow.receive,
            taker_ata_a_amount,
            vault_amount: 0,
            taker_lamports,
            maker_lamports,
            escrow_lamports: 0,
            vault_lamports: 0,
        },
    )
}

/// The balances left by a completed `refund`, every closed account at zero.
#[derive(Clone, Copy, Debug, PartialEq, Eq, Structural)]
pub struct RefundBalances {
    pub maker_ata_a_amount: u64,
    pub vault_amount: u64,
    pub maker_lamports: u64,
    pub escrow_lamports: u64,
    pub vault_lamports: u64,
}

/// What a `refund` does: the whole custodial vault returns to the maker,
/// and the vault and the record are closed with their allocations reclaimed
/// by the maker; or the error.  Only the recorded maker can be refunded.
pub open spec fn refund_outcome(
    maker: Account,
    escrow: Escrow,
    escrow_account: Account,
    mint_a: Account,
    vault: TokenAccount,
    maker_ata_a: TokenAccount,
    ids: ProgramIds,
) -> Result<RefundBalances, CustodyError> {
    if !maker.is_signer {
        Err(CustodyError::Unauthorized)
    } else if escrow_account.owner@ != ids.program@ {
        Err(CustodyError::InvalidAuthority)
    } else if escrow_account.lamports == 0 {
        Err(CustodyError::NotInitialized)
    } else if mint_a.owner@ != ids.token_program@ {
        Err(CustodyError::InvalidAuthority)
    } else if !ata_valid(vault, escrow_account.address@, mint_a.address@, ids) {
        Err(CustodyError::InvalidAuthority)
    } else if !ata_valid(maker_ata_a, maker.address@, mint_a.address@, ids) {
        Err(CustodyError::InvalidAuthority)
    } else if candidate_address(
        escrow_seeds(maker.address@, escrow.seed).push(seq![escrow.bump]),
        ids.program@,
    ) != Some(escrow_account.address@) {
        Err(CustodyError::InvalidAuthority)
    } else if escrow.maker@ != maker.address@ {
        Err(CustodyError::InvalidAuthority)
    } else if maker_ata_a.amount + vault.amount > u64::MAX {
        Err(CustodyError::ArithmeticOverflow)
    } else if maker.lamports + vault.lamports > u64::MAX {
        Err(CustodyError::ArithmeticOverflow)
    } else if maker.lamports + vault.lamports + escrow_account.lamports > u64::MAX {
        Err(CustodyError::ArithmeticOverflow)
    } else {
        Ok(
            RefundBalances {
                maker_ata_a_amount: (maker_ata_a.amount + vault.amount) as u64,
                vault_amount: 0u64,
                maker_lamports: (maker.lamports + vault.lamports + escrow_account.lamports) as u64,
                escrow_lamports: 0u64,
                vault_lamports: 0u64,
            },
        )
    }
}

/// Returns the whole custodial vault to the signing maker and closes both
/// escrow accounts.  Atomic in the same sense as [`take`].
pub fn refund(
    maker: &Account,
    escrow: &Escrow,
    escrow_account: &Account,
    mint_a: &Account,
    vault: &TokenAccount,
    maker_ata_a: &TokenAccount,
    ids: &ProgramIds,
) -> (r: Result<RefundBalances, CustodyError>)
    requires
        maker.wf(),
        escrow.wf(),
        escrow_account.wf(),
        mint_a.wf(),
        vault.wf(),
        maker_ata_a.wf(),
        ids.wf(),
    ensures
        r == refund_outcome(
            *maker,
            *escrow,
            *escrow_account,
            *mint_a,
            *vault,
            *maker_ata_a,
            *ids,
        ),
        r matches Ok(b) ==> b.maker_ata_a_amount + b.vault_amount == maker_ata_a.amount
            + vault.amount,
{
    SignerAccount::check(maker)?;
    ProgramAccount::check(escrow_account, &ids.program)?;
    if escrow_account.lamports == 0 {
        return Err(CustodyError::NotInitialized);
    }
    MintInterface::check(mint_a, &ids.token_program)?;
    if !vault.fills_role(&escrow_account.address, &mint_a.address, ids) {
        return Err(CustodyError::InvalidAuthority);
    }
    if !maker_ata_a.fills_role(&maker.address, &mint_a.address, ids) {
        return Err(CustodyError::InvalidAuthority);
    }
    let seeds = escrow_seed_vecs(&maker.address, escrow.seed);
    let derived = derive_with_bump(&seeds, escrow.bump, &ids.program);
    let record_ok = match &derived {
        Some(a) => a.same(&escrow_account.address),
        None => false,
    };
    if !record_ok {
        return Err(CustodyError::InvalidAuthority);
    }
    if !escrow.maker.same(&maker.address) {
        return Err(CustodyError::InvalidAuthority);
    }
    let maker_ata_a_amount = match maker_ata_a.amount.checked_add(vault.amount) {
        Some(v) => v,
        None => {
            return Err(CustodyError::ArithmeticOverflow);
        },
    };
    let reclaimed = match maker.lamports.checked_add(vault.lamports) {
        Some(v) => v,
        None => {
            return Err(CustodyError::ArithmeticOverflow);
        },
    };
    let maker_lamports = match reclaimed.checked_add(escrow_account.lamports) {
        Some(v) => v,
        None => {
            return Err(CustodyError::ArithmeticOverflow);
        },
    };
    Ok(
        RefundBalances {
            maker_ata_a_amount,
            vault_amount: 0,
            maker_lamports,
            escrow_lamports: 0,
            vault_lamports: 0,
        },
    )
}

/// A successful `take` conserves both assets: the custodial vault's whole
/// asset-A balance moves to the taker, and exactly the requested amount of
/// asset B moves from taker to maker.  No value is created or destroyed.
pub proof fn lemma_take_conserves(
    taker: Account,
    maker: Account,
    escrow: Escrow,
    escrow_account: Account,
    vault: TokenAccount,
    taker_ata_a: TokenAccount,
    taker_ata_b: TokenAccount,
    maker_ata_b: TokenAccount,
    ids: ProgramIds,
    b: TakeBalances,
)
    requires
        take_outcome(
            taker,
            maker,
            escrow,
            escrow_account,
            vault,
            taker_ata_a,
            taker_ata_b,
            maker_ata_b,
            ids,
        ) == Ok::<TakeBalances, CustodyError>(b),
    ensures
        b.taker_ata_a_amount + b.vault_amount == taker_ata_a.amount + vault.amount,
        b.maker_ata_b_amount + b.taker_ata_b_amount == maker_ata_b.amount + taker_ata_b.amount,
        b.maker_ata_b_amount == maker_ata_b.amount + escrow.receive,
        b.vault_amount == 0 && b.escrow_lamports == 0 && b.vault_lamports == 0,
{
}

/// A successful `refund` conserves asset A: the custodial vault's whole
/// balance returns to the maker's own holding.
pub proof fn lemma_refund_conserves(
    maker: Account,
    escrow: Escrow,
    escrow_account: Account,
    mint_a: Account,
    vault: TokenAccount,
    maker_ata_a: TokenAccount,
    ids: ProgramIds,
    b: RefundBalances,
)
    requires
        refund_outcome(maker, escrow, escrow_account, mint_a, vault, maker_ata_a, ids) == Ok::<
            RefundBalances,
            CustodyError,
        >(b),
    ensures
        b.maker_ata_a_amount + b.vault_amount == maker_ata_a.amount + vault.amount,
        b.vault_amount == 0 && b.escrow_lamports == 0 && b.vault_lamports == 0,
{
}

/// Terminal transitions are exactly-once: once a record's account is
/// emptied by `take` or `refund`, any further terminal attempt on it is
/// rejected as `NotInitialized`, whatever else the caller presents.
pub proof fn lemma_terminal_exactly_once(
    taker: Account,
    maker: Account,
    escrow: Escrow,
    escrow_account: Account,
    mint_a: Account,
    vault: TokenAccount,
    taker_ata_a: TokenAccount,
    taker_ata_b: TokenAccount,
    maker_ata_a: TokenAccount,
    maker_ata_b: TokenAccount,
    ids: ProgramIds,
)
    requires
        escrow_account.lamports == 0,
        escrow_account.owner@ == ids.program@,
        taker.is_signer,
        maker.is_signer,
    ensures
        take_outcome(
            taker,
            maker,
            escrow,
            escrow_account,
            vault,
            taker_ata_a,
            taker_ata_b,
            maker_ata_b,
            ids,
        ) == Err::<TakeBalances, CustodyError>(CustodyError::NotInitialized),
        refund_outcome(maker, escrow, escrow_account, mint_a, vault, maker_ata_a, ids) == Err::<
            RefundBalances,
            CustodyError,
        >(CustodyError::NotInitialized),
{
}

} // verus!
