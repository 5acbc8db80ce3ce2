//! Escrow protocol: make, take, refund, terminal exactly-once, and
//! conservation of the deposited asset.

use pda_custody::account::{ata_seed_vecs, Account, ProgramIds, TokenAccount};
use pda_custody::addr::Address;
use pda_custody::errors::CustodyError;
use pda_custody::escrow::{escrow_seed_vecs, make, refund, take, MakeOutcome};

fn address(byte: u8) -> Address {
    Address { bytes: vec![byte; 32] }
}

fn system_address() -> Address {
    Address { bytes: vec![0u8; 32] }
}

fn ids() -> ProgramIds {
    ProgramIds {
        program: address(1),
        token_program: address(0xAA),
        ata_program: address(0xBB),
    }
}

fn signer(byte: u8, lamports: u64) -> Account {
    Account { address: address(byte), owner: system_address(), lamports, is_signer: true }
}

fn ata_of(owner: &Address, mint: &Address, amount: u64) -> TokenAccount {
    let ids = ids();
    let seeds = ata_seed_vecs(owner, &ids.token_program, mint);
    let (ata_address, _bump) = pda_custody::addr::derive(&seeds, &ids.ata_program).unwrap();
    TokenAccount {
        address: ata_address,
        mint: mint.dup(),
        authority: owner.dup(),
        amount,
        lamports: 2_000,
    }
}

fn open_escrow() -> MakeOutcome {
    let ids = ids();
    let maker = signer(7, 1_000_000);
    let mint_a = address(0x10);
    let mint_b = address(0x11);
    let maker_ata_a = ata_of(&maker.address, &mint_a, 1_000);
    make(&maker, 1, &mint_a, &mint_b, 500, 1_000, &maker_ata_a, &ids).unwrap()
}

#[test]
fn make_funds_the_custodial_vault() {
    let out = open_escrow();
    assert_eq!(out.vault.amount, 1_000);
    assert_eq!(out.maker_ata_a_amount, 0);
    assert_eq!(out.escrow.seed, 1);
    assert_eq!(out.escrow.receive, 500);
    assert_eq!(out.vault.authority.bytes, out.escrow_address.bytes);

    // The record's address is exactly the canonical derivation under the
    // stored bump.
    let seeds = escrow_seed_vecs(&out.escrow.maker, out.escrow.seed);
    assert!(pda_custody::addr::verify(&out.escrow_address, &seeds, out.escrow.bump, &ids().program));
}

#[test]
fn make_rejections() {
    let ids = ids();
    let maker = signer(7, 1_000_000);
    let mint_a = address(0x10);
    let mint_b = address(0x11);
    let maker_ata_a = ata_of(&maker.address, &mint_a, 1_000);

    let unsigned = Account { is_signer: false, ..signer(7, 1_000_000) };
    assert!(matches!(
        make(&unsigned, 1, &mint_a, &mint_b, 500, 1_000, &maker_ata_a, &ids),
        Err(CustodyError::Unauthorized)
    ));
    assert!(matches!(
        make(&maker, 1, &mint_a, &mint_b, 0, 1_000, &maker_ata_a, &ids),
        Err(CustodyError::InvalidAmount)
    ));
    assert!(matches!(
        make(&maker, 1, &mint_a, &mint_b, 500, 0, &maker_ata_a, &ids),
        Err(CustodyError::InvalidAmount)
    ));
    assert!(matches!(
        make(&maker, 1, &mint_a, &mint_b, 500, 1_001, &maker_ata_a, &ids),
        Err(CustodyError::InsufficientFunds)
    ));
}

#[test]
fn take_swaps_and_closes_both_accounts() {
    let ids = ids();
    let out = open_escrow();
    let maker = signer(7, 1_000_000);
    let taker = signer(8, 500_000);
    let mint_a = address(0x10);
    let mint_b = address(0x11);

    let escrow_account = Account {
        address: out.escrow_address.dup(),
        owner: ids.program.dup(),
        lamports: 2_500_000,
        is_signer: false,
    };
    let taker_ata_a = ata_of(&taker.address, &mint_a, 0);
    let taker_ata_b = ata_of(&taker.address, &mint_b, 700);
    let maker_ata_b = ata_of(&maker.address, &mint_b, 0);

    let balances = take(
        &taker, &maker, &out.escrow, &escrow_account, &out.vault, &taker_ata_a, &taker_ata_b,
        &maker_ata_b, &ids,
    )
    .unwrap();

    assert_eq!(balances.maker_ata_b_amount, 500);
    assert_eq!(balances.taker_ata_b_amount, 200);
    assert_eq!(balances.taker_ata_a_amount, 1_000);
    assert_eq!(balances.vault_amount, 0);
    assert_eq!(balances.escrow_lamports, 0);
    assert_eq!(balances.vault_lamports, 0);
    assert_eq!(balances.taker_lamports, 500_000);
    assert_eq!(balances.maker_lamports, 3_500_000);

    // Conservation of asset A: nothing created or destroyed.
    assert_eq!(
        balances.taker_ata_a_amount + balances.vault_amount,
        taker_ata_a.amount + out.vault.amount
    );

    // A second terminal attempt on the now-closed record is rejected.
    let closed = Account { lamports: 0, ..escrow_account };
    assert!(matches!(
        take(&taker, &maker, &out.escrow, &closed, &out.vault, &taker_ata_a, &taker_ata_b,
            &maker_ata_b, &ids),
        Err(CustodyError::NotInitialized)
    ));
}

#[test]
fn take_requires_enough_of_asset_b() {
    let ids = ids();
    let out = open_escrow();
    let maker = signer(7, 1_000_000);
    let taker = signer(8, 500_000);
    let mint_a = address(0x10);
    let mint_b = address(0x11);

    let escrow_account = Account {
        address: out.escrow_address.dup(),
        owner: ids.program.dup(),
        lamports: 2_500_000,
        is_signer: false,
    };
    let taker_ata_a = ata_of(&taker.address, &mint_a, 0);
    let taker_ata_b = ata_of(&taker.address, &mint_b, 499);
    let maker_ata_b = ata_of(&maker.address, &mint_b, 0);

    assert!(matches!(
        take(&taker, &maker, &out.escrow, &escrow_account, &out.vault, &taker_ata_a,
            &taker_ata_b, &maker_ata_b, &ids),
        Err(CustodyError::InsufficientFunds)
    ));
}

#[test]
fn refund_returns_the_whole_deposit() {
    let ids = ids();
    let out = open_escrow();
    let maker = signer(7, 1_000_000);
    let mint_a = address(0x10);
    let mint_a_account = Account {
        address: address(0x10),
        owner: ids.token_program.dup(),
        lamports: 1,
        is_signer: false,
    };
    let escrow_account = Account {
        address: out.escrow_address.dup(),
        owner: ids.program.dup(),
        lamports: 2_500_000,
        is_signer: false,
    };
    let maker_ata_a = ata_of(&maker.address, &mint_a, 0);

    let balances = refund(
        &maker, &out.escrow, &escrow_account, &mint_a_account, &out.vault, &maker_ata_a, &ids,
    )
    .unwrap();

    assert_eq!(balances.maker_ata_a_amount, 1_000);
    assert_eq!(balances.vault_amount, 0);
    assert_eq!(balances.escrow_lamports, 0);
    assert_eq!(balances.maker_lamports, 3_500_000);

    // Conservation of asset A on the refund path.
    assert_eq!(
        balances.maker_ata_a_amount + balances.vault_amount,
        maker_ata_a.amount + out.vault.amount
    );

    // A second refund on the closed record is rejected.
    let closed = Account { lamports: 0, ..escrow_account };
    assert!(matches!(
        refund(&maker, &out.escrow, &closed, &mint_a_account, &out.vault, &maker_ata_a, &ids),
        Err(CustodyError::NotInitialized)
    ));
}

#[test]
fn refund_rejects_anyone_but_the_maker() {
    let ids = ids();
    let out = open_escrow();
    let mallory = signer(9, 1_000_000);
    let mint_a = address(0x10);
    let mint_a_account = Account {
        address: address(0x10),
        owner: ids.token_program.dup(),
        lamports: 1,
        is_signer: false,
    };
    let escrow_account = Account {
        address: out.escrow_address.dup(),
        owner: ids.program.dup(),
        lamports: 2_500_000,
        is_signer: false,
    };
    let mallory_ata_a = ata_of(&mallory.address, &mint_a, 0);

    assert!(matches!(
        refund(&mallory, &out.escrow, &escrow_account, &mint_a_account, &out.vault,
            &mallory_ata_a, &ids),
        Err(CustodyError::InvalidAuthority)
    ));
}
