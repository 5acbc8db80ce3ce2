//! Vault lifecycle: deposit, withdraw-all, and their rejections.

use pda_custody::account::Account;
use pda_custody::addr::Address;
use pda_custody::errors::CustodyError;
use pda_custody::vault::{deposit, vault_seed_vecs, withdraw, DepositInstructionData};

fn address(byte: u8) -> Address {
    Address { bytes: vec![byte; 32] }
}

fn system_address() -> Address {
    Address { bytes: vec![0u8; 32] }
}

fn owner_account(byte: u8, lamports: u64) -> Account {
    Account { address: address(byte), owner: system_address(), lamports, is_signer: true }
}

fn derived_vault(owner: &Account, program_id: &Address, lamports: u64) -> Account {
    let seeds = vault_seed_vecs(&owner.address);
    let (vault_address, _bump) = pda_custody::addr::derive(&seeds, program_id).unwrap();
    Account { address: vault_address, owner: system_address(), lamports, is_signer: false }
}

#[test]
fn deposit_then_withdraw_returns_everything() {
    let program_id = address(1);
    let owner = owner_account(7, 10_000);
    let vault = derived_vault(&owner, &program_id, 0);

    let (owner_after, vault_after) = deposit(&owner, &vault, 1_000, &program_id).unwrap();
    assert_eq!(owner_after, 9_000);
    assert_eq!(vault_after, 1_000);

    let owner_mid = Account { lamports: owner_after, ..owner_account(7, 0) };
    let vault_mid = Account { lamports: vault_after, ..derived_vault(&owner_mid, &program_id, 0) };
    let (owner_final, vault_final) = withdraw(&owner_mid, &vault_mid, &program_id).unwrap();
    assert_eq!(owner_final, 10_000);
    assert_eq!(vault_final, 0);
}

#[test]
fn withdraw_unfunded_vault_is_not_initialized() {
    let program_id = address(1);
    let owner = owner_account(8, 500);
    let vault = derived_vault(&owner, &program_id, 0);
    assert_eq!(withdraw(&owner, &vault, &program_id), Err(CustodyError::NotInitialized));
}

#[test]
fn deposit_rejections() {
    let program_id = address(1);
    let owner = owner_account(9, 100);
    let vault = derived_vault(&owner, &program_id, 0);

    let unsigned = Account { is_signer: false, ..owner_account(9, 100) };
    assert_eq!(deposit(&unsigned, &vault, 50, &program_id), Err(CustodyError::Unauthorized));

    let foreign_vault = Account { owner: address(4), ..derived_vault(&owner, &program_id, 0) };
    assert_eq!(deposit(&owner, &foreign_vault, 50, &program_id), Err(CustodyError::InvalidAuthority));

    let funded_vault = derived_vault(&owner, &program_id, 5);
    assert_eq!(deposit(&owner, &funded_vault, 50, &program_id), Err(CustodyError::NotInitialized));

    let wrong_address = Account { address: address(3), ..derived_vault(&owner, &program_id, 0) };
    assert_eq!(deposit(&owner, &wrong_address, 50, &program_id), Err(CustodyError::InvalidAuthority));

    assert_eq!(deposit(&owner, &vault, 0, &program_id), Err(CustodyError::InvalidAmount));

    assert_eq!(deposit(&owner, &vault, 101, &program_id), Err(CustodyError::InsufficientFunds));
}

#[test]
fn withdraw_rejections() {
    let program_id = address(1);
    let owner = owner_account(10, 100);

    let unsigned = Account { is_signer: false, ..owner_account(10, 100) };
    let vault = derived_vault(&owner, &program_id, 40);
    assert_eq!(withdraw(&unsigned, &vault, &program_id), Err(CustodyError::Unauthorized));

    let foreign_vault = Account { owner: address(4), ..derived_vault(&owner, &program_id, 40) };
    assert_eq!(withdraw(&owner, &foreign_vault, &program_id), Err(CustodyError::InvalidAuthority));

    let wrong_address = Account { address: address(3), ..derived_vault(&owner, &program_id, 40) };
    assert_eq!(withdraw(&owner, &wrong_address, &program_id), Err(CustodyError::InvalidAuthority));

    let rich_owner = owner_account(10, u64::MAX);
    let vault = derived_vault(&rich_owner, &program_id, 1);
    assert_eq!(withdraw(&rich_owner, &vault, &program_id), Err(CustodyError::ArithmeticOverflow));
}

#[test]
fn deposit_payload_decodes_little_endian() {
    let data = vec![1u8, 2, 0, 0, 0, 0, 0, 0];
    let parsed = DepositInstructionData::parse(&data).unwrap();
    assert_eq!(parsed.amount, 513);
}

#[test]
fn deposit_payload_rejections() {
    assert!(matches!(
        DepositInstructionData::parse(&vec![1u8; 7]),
        Err(CustodyError::InvalidInstructionData)
    ));
    assert!(matches!(
        DepositInstructionData::parse(&vec![1u8; 9]),
        Err(CustodyError::InvalidInstructionData)
    ));
    assert!(matches!(
        DepositInstructionData::parse(&vec![0u8; 8]),
        Err(CustodyError::InvalidAmount)
    ));
}
