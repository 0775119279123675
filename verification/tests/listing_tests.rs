//! Listing pipeline: filters, skip-on-error decoding, and the
//! profile-restricted loan listing.

use lending_client::accounts::{CollectionLendingProfile, Loan, User};
use lending_client::addresses::Address;
use lending_client::client::{
    AccountFilter, profile_list_filters, loan_list_filters, user_list_filters,
    decode_lending_profiles, decode_loans, decode_users, filter_profiles_by_collection,
};
use lending_client::codec::{encode_profile, encode_loan, encode_user};
use lending_client::utils::encode_string;

fn profile_record(collection: u8, id: u64) -> CollectionLendingProfile {
    CollectionLendingProfile {
        collection: Address::new([collection; 32]),
        token_mint: Address::new([2; 32]),
        token_vault: Address::new([3; 32]),
        vault: Address::new([4; 32]),
        collection_name: encode_string("Fixture"),
        id,
        interest_rate: 250,
        fee_rate: 100,
        loan_duration: 604800,
    }
}

fn loan_record(profile: u8, id: u64) -> Loan {
    Loan {
        principal_amount: 10 + id,
        repayment_amount: 20 + id,
        profile: Address::new([profile; 32]),
        loan_mint: Address::new([2; 32]),
        lender: Address::new([3; 32]),
        borrower: Address::new([0; 32]),
        due_timestamp: 99,
        id,
    }
}

#[test]
fn profile_filters_select_exact_record_size() {
    let f = profile_list_filters();
    assert_eq!(f.len(), 1);
    assert!(matches!(f[0], AccountFilter::DataSize(200)));
}

#[test]
fn user_filters_select_exact_record_size() {
    let f = user_list_filters();
    assert_eq!(f.len(), 1);
    assert!(matches!(f[0], AccountFilter::DataSize(48)));
}

#[test]
fn loan_filters_add_profile_memcmp_at_offset() {
    let none = loan_list_filters(None);
    assert_eq!(none.len(), 1);
    assert!(matches!(none[0], AccountFilter::DataSize(168)));
    let p = Address::new([5; 32]);
    let some = loan_list_filters(Some(&p));
    assert_eq!(some.len(), 2);
    match &some[1] {
        AccountFilter::Memcmp { offset, bytes } => {
            assert_eq!(*offset, 24);
            assert_eq!(bytes.as_slice(), &[5u8; 32]);
        },
        _ => panic!("expected a byte-range equality filter"),
    }
}

#[test]
fn malformed_record_is_skipped_not_fatal() {
    let a = profile_record(1, 0);
    let b = profile_record(1, 1);
    let c = profile_record(1, 2);
    let mut bad = encode_profile(&b);
    bad[0] ^= 0xff;
    let raw = vec![
        (Address::new([10; 32]), encode_profile(&a)),
        (Address::new([11; 32]), bad),
        (Address::new([12; 32]), encode_profile(&c)),
    ];
    let decoded = decode_lending_profiles(&raw);
    assert_eq!(decoded.len(), 2);
    assert_eq!(decoded[0].pubkey, Address::new([10; 32]));
    assert_eq!(decoded[0].state.id, 0);
    assert_eq!(decoded[1].pubkey, Address::new([12; 32]));
    assert_eq!(decoded[1].state.id, 2);
}

#[test]
fn loan_listing_keeps_only_requested_profile() {
    let raw = vec![
        (Address::new([20; 32]), encode_loan(&loan_record(7, 0))),
        (Address::new([21; 32]), encode_loan(&loan_record(8, 1))),
        (Address::new([22; 32]), encode_loan(&loan_record(7, 2))),
        (Address::new([23; 32]), encode_loan(&loan_record(9, 3))),
    ];
    let wanted = Address::new([7; 32]);
    let loans = decode_loans(&raw, Some(&wanted));
    assert_eq!(loans.len(), 2);
    for loan in &loans {
        assert_eq!(loan.state.profile, wanted);
    }
    assert_eq!(loans[0].state.id, 0);
    assert_eq!(loans[1].state.id, 2);
    let all = decode_loans(&raw, None);
    assert_eq!(all.len(), 4);
}

#[test]
fn loan_listing_skips_bad_record_and_filters() {
    let mut bad = encode_loan(&loan_record(7, 5));
    bad[3] ^= 1;
    let raw = vec![
        (Address::new([30; 32]), encode_loan(&loan_record(7, 0))),
        (Address::new([31; 32]), bad),
        (Address::new([32; 32]), encode_loan(&loan_record(8, 1))),
    ];
    let wanted = Address::new([7; 32]);
    let loans = decode_loans(&raw, Some(&wanted));
    assert_eq!(loans.len(), 1);
    assert_eq!(loans[0].pubkey, Address::new([30; 32]));
}

#[test]
fn user_listing_decodes_in_order() {
    let raw = vec![
        (Address::new([40; 32]), encode_user(&User { authority: Address::new([3; 32]), loans_offered: 1 })),
        (Address::new([41; 32]), vec![0u8; 48]),
        (Address::new([42; 32]), encode_user(&User { authority: Address::new([4; 32]), loans_offered: 2 })),
    ];
    let users = decode_users(&raw);
    assert_eq!(users.len(), 2);
    assert_eq!(users[0].state.loans_offered, 1);
    assert_eq!(users[1].state.loans_offered, 2);
}

#[test]
fn empty_listing_decodes_to_empty() {
    let raw: Vec<(Address, Vec<u8>)> = Vec::new();
    assert_eq!(decode_lending_profiles(&raw).len(), 0);
    assert_eq!(decode_loans(&raw, None).len(), 0);
    assert_eq!(decode_users(&raw).len(), 0);
}

#[test]
fn profile_listing_restricted_to_one_collection() {
    let raw = vec![
        (Address::new([50; 32]), encode_profile(&profile_record(1, 0))),
        (Address::new([51; 32]), encode_profile(&profile_record(2, 1))),
        (Address::new([52; 32]), encode_profile(&profile_record(1, 2))),
    ];
    let decoded = decode_lending_profiles(&raw);
    let wanted = Address::new([1; 32]);
    let only = filter_profiles_by_collection(decoded, Some(&wanted));
    assert_eq!(only.len(), 2);
    assert_eq!(only[0].state.id, 0);
    assert_eq!(only[1].state.id, 2);
    for p in &only {
        assert_eq!(p.state.collection, wanted);
    }
    let decoded_again = decode_lending_profiles(&raw);
    let all = filter_profiles_by_collection(decoded_again, None);
    assert_eq!(all.len(), 3);
}
