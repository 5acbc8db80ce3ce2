//! Signature-gated custody: deposit keyed by a public key and withdrawal
//! authorized by an adjacent signature-verification instruction.

use pda_custody::account::Account;
use pda_custody::addr::Address;
use pda_custody::errors::CustodyError;
use pda_custody::gated::{
    deposit, gated_vault_seed_vecs, parse_authorization, withdraw, DepositInstructionData,
    WithdrawInstructionData,
};

fn address(byte: u8) -> Address {
    Address { bytes: vec![byte; 32] }
}

fn system_address() -> Address {
    Address { bytes: vec![0u8; 32] }
}

fn holder_pubkey() -> Vec<u8> {
    let mut pk = vec![2u8];
    pk.extend_from_slice(&[9u8; 32]);
    pk
}

fn payer_account(lamports: u64) -> Account {
    Account { address: address(7), owner: system_address(), lamports, is_signer: true }
}

fn derived_vault(program_id: &Address, lamports: u64) -> (Account, u8) {
    let seeds = gated_vault_seed_vecs(&holder_pubkey());
    let (vault_address, bump) = pda_custody::addr::derive(&seeds, program_id).unwrap();
    (
        Account { address: vault_address, owner: system_address(), lamports, is_signer: false },
        bump,
    )
}

/// A signature-verification payload: one header, `num_sigs` declared, one
/// offsets entry, the public key at 16, the 40-byte message at 49.
fn auth_payload(num_sigs: u8, pubkey: &[u8], payer: &[u8], expiry: i64) -> Vec<u8> {
    let mut d = vec![num_sigs, 0u8];
    d.extend_from_slice(&0u16.to_le_bytes());
    d.extend_from_slice(&0xFFFFu16.to_le_bytes());
    d.extend_from_slice(&16u16.to_le_bytes());
    d.extend_from_slice(&0xFFFFu16.to_le_bytes());
    d.extend_from_slice(&49u16.to_le_bytes());
    d.extend_from_slice(&40u16.to_le_bytes());
    d.extend_from_slice(&0xFFFFu16.to_le_bytes());
    d.extend_from_slice(pubkey);
    d.extend_from_slice(payer);
    d.extend_from_slice(&expiry.to_le_bytes());
    d
}

#[test]
fn parse_extracts_signer_payer_and_expiry() {
    let payload = auth_payload(1, &holder_pubkey(), &[7u8; 32], 12_345);
    let auth = parse_authorization(&payload).unwrap();
    assert_eq!(auth.signer_pubkey, holder_pubkey());
    assert_eq!(auth.authorized_payer.bytes, vec![7u8; 32]);
    assert_eq!(auth.expiry, 12_345);
}

#[test]
fn parse_rejects_malformed_payloads() {
    assert!(parse_authorization(&vec![1u8]).is_err());
    // Two signatures are declared: ambiguous, rejected.
    let two = auth_payload(2, &holder_pubkey(), &[7u8; 32], 1);
    assert!(matches!(parse_authorization(&two), Err(CustodyError::InvalidInstructionData)));
    // A message of any length but 40 is rejected.
    let mut short_msg = auth_payload(1, &holder_pubkey(), &[7u8; 32], 1);
    short_msg[12] = 39;
    assert!(parse_authorization(&short_msg).is_err());
}

#[test]
fn parser_agrees_with_reference_crate() {
    let payload = auth_payload(1, &holder_pubkey(), &[7u8; 32], 9_999);
    let reference =
        pinocchio_secp256r1_instruction::Secp256r1Instruction::try_from(&payload[..]).unwrap();
    let auth = parse_authorization(&payload).unwrap();

    assert_eq!(reference.num_signatures(), 1);
    assert_eq!(reference.get_signer(0).unwrap().to_vec(), auth.signer_pubkey);
    let message = reference.get_message_data(0).unwrap();
    assert_eq!(message[..32].to_vec(), auth.authorized_payer.bytes);
    assert_eq!(i64::from_le_bytes(message[32..40].try_into().unwrap()), auth.expiry);
}

#[test]
fn deposit_requires_a_fresh_vault() {
    let program_id = address(1);
    let payer = payer_account(10_000);
    let (vault, _bump) = derived_vault(&program_id, 0);
    let (payer_after, vault_after) =
        deposit(&payer, &vault, &holder_pubkey(), 5_000, &program_id).unwrap();
    assert_eq!(payer_after, 5_000);
    assert_eq!(vault_after, 5_000);

    let (funded, _bump) = derived_vault(&program_id, 1);
    assert_eq!(
        deposit(&payer, &funded, &holder_pubkey(), 5_000, &program_id),
        Err(CustodyError::NotInitialized)
    );
}

#[test]
fn withdrawal_with_lapsed_expiry_fails() {
    let program_id = address(1);
    let payer = payer_account(5_000);
    let (vault, bump) = derived_vault(&program_id, 5_000);
    let now: i64 = 1_000;

    let payload = auth_payload(1, &holder_pubkey(), &[7u8; 32], now - 1);
    assert_eq!(
        withdraw(&payer, &vault, &payload, now, bump, &program_id),
        Err(CustodyError::Expired)
    );
}

#[test]
fn withdrawal_before_expiry_sweeps_the_balance() {
    let program_id = address(1);
    let payer = payer_account(5_000);
    let (vault, bump) = derived_vault(&program_id, 5_000);
    let now: i64 = 1_000;

    let payload = auth_payload(1, &holder_pubkey(), &[7u8; 32], now + 3_600);
    let (payer_after, vault_after) =
        withdraw(&payer, &vault, &payload, now, bump, &program_id).unwrap();
    assert_eq!(payer_after, 10_000);
    assert_eq!(vault_after, 0);

    // Expiry is inclusive: `now == expiry` still authorizes.
    let boundary = auth_payload(1, &holder_pubkey(), &[7u8; 32], now);
    assert!(withdraw(&payer, &vault, &boundary, now, bump, &program_id).is_ok());
}

#[test]
fn withdrawal_with_two_signatures_fails() {
    let program_id = address(1);
    let payer = payer_account(5_000);
    let (vault, bump) = derived_vault(&program_id, 5_000);
    let now: i64 = 1_000;

    let payload = auth_payload(2, &holder_pubkey(), &[7u8; 32], now + 3_600);
    assert_eq!(
        withdraw(&payer, &vault, &payload, now, bump, &program_id),
        Err(CustodyError::InvalidInstructionData)
    );
}

#[test]
fn withdrawal_authorization_binds_payer_vault_and_time() {
    let program_id = address(1);
    let payer = payer_account(5_000);
    let (vault, bump) = derived_vault(&program_id, 5_000);
    let now: i64 = 1_000;

    // The message authorizes someone else.
    let wrong_payer = auth_payload(1, &holder_pubkey(), &[8u8; 32], now + 3_600);
    assert_eq!(
        withdraw(&payer, &vault, &wrong_payer, now, bump, &program_id),
        Err(CustodyError::Unauthorized)
    );

    // A non-canonical bump fails the re-derivation check.
    let payload = auth_payload(1, &holder_pubkey(), &[7u8; 32], now + 3_600);
    let wrong_bump = if bump > 1 { bump - 1 } else { bump + 1 };
    assert_eq!(
        withdraw(&payer, &vault, &payload, now, wrong_bump, &program_id),
        Err(CustodyError::InvalidAuthority)
    );

    // A negative expiry is decoded as signed and has always lapsed.
    let lapsed = auth_payload(1, &holder_pubkey(), &[7u8; 32], -1);
    assert_eq!(
        withdraw(&payer, &vault, &lapsed, 0, bump, &program_id),
        Err(CustodyError::Expired)
    );

    // An empty vault cannot be withdrawn from again.
    let (drained, bump2) = derived_vault(&program_id, 0);
    assert_eq!(
        withdraw(&payer, &drained, &payload, now, bump2, &program_id),
        Err(CustodyError::NotInitialized)
    );
}

#[test]
fn gated_payloads_decode() {
    let mut deposit_data = holder_pubkey();
    deposit_data.extend_from_slice(&513u64.to_le_bytes());
    let parsed = DepositInstructionData::parse(&deposit_data).unwrap();
    assert_eq!(parsed.pubkey, holder_pubkey());
    assert_eq!(parsed.amount, 513);
    assert!(DepositInstructionData::parse(&vec![0u8; 40]).is_err());

    let parsed = WithdrawInstructionData::parse(&vec![254u8, 9u8]).unwrap();
    assert_eq!(parsed.bump, 254);
    assert!(WithdrawInstructionData::parse(&Vec::new()).is_err());
}
