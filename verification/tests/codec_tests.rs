//! Record and string codec: round trips, exact layouts, and the error
//! cases for wrong discriminators and truncated buffers.

use lending_client::accounts::{CollectionLendingProfile, Loan, User};
use lending_client::addresses::Address;
use lending_client::codec::{
    encode_profile, decode_profile, encode_loan, decode_loan, encode_user, decode_user,
};
use lending_client::error::DecodeError;
use lending_client::utils::{encode_string, decode_string, try_encode_string};

fn some_profile() -> CollectionLendingProfile {
    CollectionLendingProfile {
        collection: Address::new([1; 32]),
        token_mint: Address::new([2; 32]),
        token_vault: Address::new([3; 32]),
        vault: Address::new([4; 32]),
        collection_name: encode_string("Degen Apes"),
        id: 7,
        interest_rate: 250,
        fee_rate: 100,
        loan_duration: 604800,
    }
}

fn some_loan() -> Loan {
    Loan {
        principal_amount: 1_000_000,
        repayment_amount: 1_025_000,
        profile: Address::new([5; 32]),
        loan_mint: Address::new([2; 32]),
        lender: Address::new([3; 32]),
        borrower: Address::new([0; 32]),
        due_timestamp: 1_700_000_000,
        id: 3,
    }
}

#[test]
fn profile_codec_round_trip() {
    let p = some_profile();
    let bytes = encode_profile(&p);
    assert_eq!(bytes.len(), 200);
    let q = decode_profile(&bytes).unwrap();
    assert_eq!(q.collection, p.collection);
    assert_eq!(q.token_mint, p.token_mint);
    assert_eq!(q.token_vault, p.token_vault);
    assert_eq!(q.vault, p.vault);
    assert_eq!(q.collection_name, p.collection_name);
    assert_eq!(q.id, p.id);
    assert_eq!(q.interest_rate, p.interest_rate);
    assert_eq!(q.fee_rate, p.fee_rate);
    assert_eq!(q.loan_duration, p.loan_duration);
}

#[test]
fn loan_codec_round_trip() {
    let l = some_loan();
    let bytes = encode_loan(&l);
    assert_eq!(bytes.len(), 168);
    let m = decode_loan(&bytes).unwrap();
    assert_eq!(m.principal_amount, l.principal_amount);
    assert_eq!(m.repayment_amount, l.repayment_amount);
    assert_eq!(m.profile, l.profile);
    assert_eq!(m.loan_mint, l.loan_mint);
    assert_eq!(m.lender, l.lender);
    assert_eq!(m.borrower, l.borrower);
    assert_eq!(m.due_timestamp, l.due_timestamp);
    assert_eq!(m.id, l.id);
}

#[test]
fn user_codec_round_trip() {
    let u = User { authority: Address::new([3; 32]), loans_offered: 12 };
    let bytes = encode_user(&u);
    assert_eq!(bytes.len(), 48);
    let v = decode_user(&bytes).unwrap();
    assert_eq!(v.authority, u.authority);
    assert_eq!(v.loans_offered, 12);
}

#[test]
fn loan_layout_exact_bytes() {
    let l = some_loan();
    let bytes = encode_loan(&l);
    assert_eq!(&bytes[0..8], &[20, 195, 70, 117, 165, 227, 182, 1]);
    assert_eq!(&bytes[8..16], &1_000_000u64.to_le_bytes());
    assert_eq!(&bytes[16..24], &1_025_000u64.to_le_bytes());
    assert_eq!(&bytes[24..56], &[5u8; 32]);
    assert_eq!(&bytes[56..88], &[2u8; 32]);
    assert_eq!(&bytes[88..120], &[3u8; 32]);
    assert_eq!(&bytes[120..152], &[0u8; 32]);
    assert_eq!(&bytes[152..160], &1_700_000_000u64.to_le_bytes());
    assert_eq!(&bytes[160..168], &3u64.to_le_bytes());
}

#[test]
fn decode_rejects_wrong_discriminator() {
    let l = some_loan();
    let bytes = encode_loan(&l);
    assert!(matches!(decode_profile(&bytes), Err(DecodeError::Mismatch)));
    assert!(matches!(decode_user(&bytes), Err(DecodeError::Mismatch)));
    let p = some_profile();
    let profile_bytes = encode_profile(&p);
    assert!(matches!(decode_loan(&profile_bytes), Err(DecodeError::Mismatch)));
}

#[test]
fn decode_rejects_truncated_buffer() {
    let l = some_loan();
    let bytes = encode_loan(&l);
    assert!(matches!(decode_loan(&bytes[0..167]), Err(DecodeError::Truncated)));
    assert!(matches!(decode_loan(&bytes[0..8]), Err(DecodeError::Truncated)));
    assert!(matches!(decode_loan(&bytes[0..3]), Err(DecodeError::Truncated)));
    let p = some_profile();
    let profile_bytes = encode_profile(&p);
    assert!(matches!(decode_profile(&profile_bytes[0..199]), Err(DecodeError::Truncated)));
}

#[test]
fn encode_string_pads_with_zeros() {
    let e = encode_string("AB");
    let mut expected = vec![65u8, 66u8];
    expected.resize(32, 0);
    assert_eq!(e, expected);
}

#[test]
fn decode_string_trims_trailing_zeros() {
    let e = encode_string("Degen Apes");
    assert_eq!(decode_string(&e).unwrap(), "Degen Apes");
}

#[test]
fn string_codec_round_trips_non_ascii() {
    let e = encode_string("h\u{e9}llo \u{2603}");
    assert_eq!(decode_string(&e).unwrap(), "h\u{e9}llo \u{2603}");
}

#[test]
fn decode_string_rejects_invalid_utf8() {
    let bytes = vec![104u8, 105u8, 255u8, 254u8];
    assert!(matches!(decode_string(&bytes), Err(DecodeError::InvalidEncoding)));
}

#[test]
fn try_encode_string_rejects_over_width() {
    assert!(try_encode_string("123456789012345678901234567890123").is_none());
    assert!(try_encode_string("12345678901234567890123456789012").is_some());
}

#[test]
fn decode_string_of_all_zeros_is_empty() {
    assert_eq!(decode_string(&[0u8; 32]).unwrap(), "");
    assert_eq!(decode_string(&[]).unwrap(), "");
}

#[test]
fn profile_layout_exact_header() {
    let p = some_profile();
    let bytes = encode_profile(&p);
    assert_eq!(&bytes[0..8], &[150, 110, 227, 62, 17, 253, 162, 112]);
    assert_eq!(&bytes[8..40], &[1u8; 32]);
    assert_eq!(&bytes[168..176], &7u64.to_le_bytes());
    assert_eq!(&bytes[192..200], &604800u64.to_le_bytes());
}
