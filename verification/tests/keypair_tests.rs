//! Credential parsing and transaction assembly.

use lending_client::error::KeypairError;
use lending_client::utils::parse_keypair;
use lending_client::addresses::Address;
use lending_client::instructions::{AccountMeta, Instruction};
use lending_client::addresses::lending_program_id;
use lending_client::transaction::{create_transaction, keypair_pubkey};
use solana_sdk::signature::Keypair;

fn sixty_four_numbers() -> String {
    let nums: Vec<String> = (0..64u32).map(|i| (i * 3 % 256).to_string()).collect();
    format!("[{}]", nums.join(","))
}

#[test]
fn parse_keypair_reads_sixty_four_bytes() {
    let contents = sixty_four_numbers();
    let bytes = parse_keypair(&contents).unwrap();
    assert_eq!(bytes.len(), 64);
    for (i, b) in bytes.iter().enumerate() {
        assert_eq!(*b as u32, (i as u32) * 3 % 256);
    }
}

#[test]
fn parse_keypair_accepts_spaces_and_newlines() {
    let nums: Vec<String> = (0..64u32).map(|i| (255 - i).to_string()).collect();
    let contents = format!("[ {} ]\n", nums.join(", "));
    let bytes = parse_keypair(&contents).unwrap();
    assert_eq!(bytes[0], 255);
    assert_eq!(bytes[63], 192);
}

#[test]
fn parse_keypair_rejects_wrong_count() {
    let nums: Vec<String> = (0..63u32).map(|i| i.to_string()).collect();
    let contents = format!("[{}]", nums.join(","));
    assert!(matches!(parse_keypair(&contents), Err(KeypairError::SizeMismatch)));
    assert!(matches!(parse_keypair("[]"), Err(KeypairError::SizeMismatch)));
}

#[test]
fn parse_keypair_rejects_malformed_number() {
    let mut nums: Vec<String> = (0..64u32).map(|i| i.to_string()).collect();
    nums[10] = "7a".to_string();
    let contents = format!("[{}]", nums.join(","));
    assert!(matches!(parse_keypair(&contents), Err(KeypairError::Load)));
}

#[test]
fn parse_keypair_rejects_out_of_range_number() {
    let mut nums: Vec<String> = (0..64u32).map(|i| i.to_string()).collect();
    nums[0] = "256".to_string();
    let contents = format!("[{}]", nums.join(","));
    assert!(matches!(parse_keypair(&contents), Err(KeypairError::Load)));
}

#[test]
fn create_transaction_signs_with_payer() {
    let payer = Keypair::new();
    let payer_address = keypair_pubkey(&payer);
    let ix = Instruction {
        program_id: lending_program_id(),
        accounts: vec![AccountMeta { pubkey: payer_address, is_signer: true, is_writable: true }],
        data: vec![1, 2, 3],
    };
    let ixs = vec![ix];
    let tx = create_transaction(solana_sdk::hash::Hash::new_unique(), &ixs, &payer, None).unwrap();
    assert_eq!(tx.signatures.len(), 1);
    assert!(tx.is_signed());
}

#[test]
fn create_transaction_fails_for_unneeded_signer() {
    let payer = Keypair::new();
    let stranger = Keypair::new();
    let payer_address = keypair_pubkey(&payer);
    let ix = Instruction {
        program_id: lending_program_id(),
        accounts: vec![AccountMeta { pubkey: payer_address, is_signer: true, is_writable: true }],
        data: vec![],
    };
    let ixs = vec![ix];
    let strangers = vec![&stranger];
    let r = create_transaction(solana_sdk::hash::Hash::new_unique(), &ixs, &payer, Some(&strangers));
    assert!(r.is_err());
}

#[test]
fn keypair_pubkey_matches_sdk() {
    let kp = Keypair::new();
    let a = keypair_pubkey(&kp);
    let expected = solana_sdk::signer::Signer::pubkey(&kp).to_bytes();
    assert_eq!(a, Address::new(expected));
}

#[test]
fn parse_keypair_accepts_boundary_value() {
    let mut nums: Vec<String> = (0..64u32).map(|i| i.to_string()).collect();
    nums[0] = "255".to_string();
    let contents = format!("[{}]", nums.join(","));
    let bytes = parse_keypair(&contents).unwrap();
    assert_eq!(bytes[0], 255);
}
