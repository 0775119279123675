//! Instruction plans: the probe-then-create pattern, account tables,
//! and binary payloads, against independently computed addresses.

use lending_client::accounts::{CollectionLendingProfile, Loan, User};
use lending_client::addresses::Address;
use lending_client::instructions::{repay_loan, Instruction};
use lending_client::addresses::{
    lending_program_id, token_program_id, associated_token_program_id, system_program_id,
    rent_sysvar_id, metadata_program_id,
};
use lending_client::plans::{
    create_lending_profile_plan, create_loan_plan, cancel_loan_plan, take_loan_plan,
};
use lending_client::utils::encode_string;

fn fixture_profile_account() -> CollectionLendingProfile {
    CollectionLendingProfile {
        collection: Address::new([1; 32]),
        token_mint: Address::new([2; 32]),
        token_vault: Address::new([3; 32]),
        vault: Address::new([4; 32]),
        collection_name: encode_string("Fixture"),
        id: 7,
        interest_rate: 250,
        fee_rate: 100,
        loan_duration: 604800,
    }
}

fn fixture_loan_account() -> Loan {
    Loan {
        principal_amount: 5000,
        repayment_amount: 5200,
        profile: Address::new([97, 61, 36, 166, 133, 101, 143, 190, 203, 97, 35, 131, 183, 95, 22, 255, 117, 168, 141, 182, 95, 113, 175, 83, 30, 79, 139, 195, 140, 55, 163, 194]),
        loan_mint: Address::new([2; 32]),
        lender: Address::new([3; 32]),
        borrower: Address::new([0; 32]),
        due_timestamp: 0,
        id: 0,
    }
}

#[test]
fn offer_plan_with_existing_token_account_has_one_instruction() {
    let profile = Address::new([97, 61, 36, 166, 133, 101, 143, 190, 203, 97, 35, 131, 183, 95, 22, 255, 117, 168, 141, 182, 95, 113, 175, 83, 30, 79, 139, 195, 140, 55, 163, 194]);
    let lender = Address::new([3; 32]);
    let ixs = create_loan_plan(&profile, &fixture_profile_account(), &lender, None, 5000, true)
        .unwrap();
    assert_eq!(ixs.len(), 1);
    assert_eq!(ixs[0].program_id, lending_program_id());
}

#[test]
fn offer_plan_without_token_account_prepends_exactly_one_creation() {
    let profile = Address::new([97, 61, 36, 166, 133, 101, 143, 190, 203, 97, 35, 131, 183, 95, 22, 255, 117, 168, 141, 182, 95, 113, 175, 83, 30, 79, 139, 195, 140, 55, 163, 194]);
    let lender = Address::new([3; 32]);
    let with = create_loan_plan(&profile, &fixture_profile_account(), &lender, None, 5000, true)
        .unwrap();
    let without = create_loan_plan(&profile, &fixture_profile_account(), &lender, None, 5000, false)
        .unwrap();
    assert_eq!(without.len(), with.len() + 1);
    assert_eq!(without.len(), 2);
    let create = &without[0];
    assert_eq!(create.program_id, associated_token_program_id());
    assert_eq!(create.data, vec![0u8]);
    assert_eq!(create.accounts.len(), 6);
    assert_eq!(create.accounts[0].pubkey, lender);
    assert!(create.accounts[0].is_signer);
    assert!(create.accounts[0].is_writable);
    assert_eq!(create.accounts[1].pubkey, Address::new([245, 249, 139, 188, 184, 136, 171, 180, 162, 216, 171, 192, 162, 39, 162, 171, 195, 209, 242, 138, 242, 212, 204, 144, 14, 214, 132, 81, 108, 139, 234, 89]));
    assert_eq!(create.accounts[2].pubkey, lender);
    assert_eq!(create.accounts[3].pubkey, Address::new([2; 32]));
    assert_eq!(create.accounts[4].pubkey, system_program_id());
    assert_eq!(create.accounts[5].pubkey, token_program_id());
}

#[test]
fn offer_instruction_accounts_and_payload_are_exact() {
    let profile = Address::new([97, 61, 36, 166, 133, 101, 143, 190, 203, 97, 35, 131, 183, 95, 22, 255, 117, 168, 141, 182, 95, 113, 175, 83, 30, 79, 139, 195, 140, 55, 163, 194]);
    let lender = Address::new([3; 32]);
    let ixs = create_loan_plan(&profile, &fixture_profile_account(), &lender, None, 5000, true)
        .unwrap();
    let offer: &Instruction = &ixs[0];
    assert_eq!(offer.accounts.len(), 12);
    assert_eq!(offer.accounts[0].pubkey, profile);
    assert_eq!(offer.accounts[1].pubkey, Address::new([105, 199, 23, 236, 151, 194, 197, 39, 128, 237, 171, 136, 126, 223, 0, 65, 6, 21, 196, 108, 23, 183, 57, 135, 210, 84, 215, 241, 94, 105, 211, 41]));
    assert_eq!(offer.accounts[2].pubkey, Address::new([2; 32]));
    assert_eq!(offer.accounts[3].pubkey, Address::new([237, 231, 252, 146, 208, 155, 34, 105, 133, 82, 251, 26, 107, 126, 68, 2, 205, 196, 62, 82, 208, 201, 149, 117, 186, 191, 70, 102, 54, 44, 243, 248]));
    assert_eq!(offer.accounts[4].pubkey, Address::new([123, 188, 153, 170, 222, 185, 246, 110, 47, 101, 218, 163, 146, 122, 132, 151, 76, 222, 31, 23, 120, 165, 92, 236, 133, 17, 117, 248, 51, 7, 33, 182]));
    assert_eq!(offer.accounts[5].pubkey, Address::new([245, 249, 139, 188, 184, 136, 171, 180, 162, 216, 171, 192, 162, 39, 162, 171, 195, 209, 242, 138, 242, 212, 204, 144, 14, 214, 132, 81, 108, 139, 234, 89]));
    assert_eq!(offer.accounts[6].pubkey, Address::new([89, 242, 87, 139, 3, 214, 149, 171, 230, 215, 68, 186, 247, 72, 87, 26, 103, 80, 153, 181, 51, 29, 114, 14, 118, 111, 183, 71, 4, 209, 93, 150]));
    assert_eq!(offer.accounts[7].pubkey, lender);
    assert!(offer.accounts[7].is_signer);
    assert_eq!(offer.accounts[8].pubkey, associated_token_program_id());
    assert_eq!(offer.accounts[9].pubkey, system_program_id());
    assert_eq!(offer.accounts[10].pubkey, token_program_id());
    assert_eq!(offer.accounts[11].pubkey, rent_sysvar_id());
    let mut expected = vec![44u8, 12, 76, 144, 210, 208, 239, 85];
    expected.extend_from_slice(&5000u64.to_le_bytes());
    expected.extend_from_slice(&0u64.to_le_bytes());
    assert_eq!(offer.data, expected);
}

#[test]
fn offer_plan_takes_loan_id_from_user_record() {
    let profile = Address::new([97, 61, 36, 166, 133, 101, 143, 190, 203, 97, 35, 131, 183, 95, 22, 255, 117, 168, 141, 182, 95, 113, 175, 83, 30, 79, 139, 195, 140, 55, 163, 194]);
    let lender = Address::new([3; 32]);
    let user = User { authority: lender, loans_offered: 9 };
    let ixs = create_loan_plan(
        &profile,
        &fixture_profile_account(),
        &lender,
        Some(&user),
        5000,
        true,
    ).unwrap();
    let mut expected = vec![44u8, 12, 76, 144, 210, 208, 239, 85];
    expected.extend_from_slice(&5000u64.to_le_bytes());
    expected.extend_from_slice(&9u64.to_le_bytes());
    assert_eq!(ixs[0].data, expected);
}

#[test]
fn create_profile_plan_builds_one_creation_instruction() {
    let m = Address::new([1; 32]);
    let l = Address::new([2; 32]);
    let payer = Address::new([3; 32]);
    let ixs = create_lending_profile_plan("Fixture", &m, &l, 7, 604800, 250, 100, &payer)
        .unwrap();
    assert_eq!(ixs.len(), 1);
    let ix = &ixs[0];
    assert_eq!(ix.program_id, lending_program_id());
    assert_eq!(ix.accounts.len(), 10);
    assert_eq!(ix.accounts[0].pubkey, Address::new([97, 61, 36, 166, 133, 101, 143, 190, 203, 97, 35, 131, 183, 95, 22, 255, 117, 168, 141, 182, 95, 113, 175, 83, 30, 79, 139, 195, 140, 55, 163, 194]));
    assert!(ix.accounts[0].is_writable);
    assert_eq!(ix.accounts[1].pubkey, m);
    assert_eq!(ix.accounts[2].pubkey, l);
    assert_eq!(ix.accounts[3].pubkey, Address::new([34, 165, 22, 97, 101, 122, 32, 101, 157, 108, 153, 161, 155, 2, 177, 103, 113, 96, 144, 8, 191, 75, 216, 111, 249, 119, 179, 207, 118, 211, 26, 74]));
    assert_eq!(ix.accounts[4].pubkey, Address::new([63, 231, 181, 28, 7, 91, 231, 217, 20, 5, 154, 79, 10, 251, 5, 190, 179, 42, 45, 153, 161, 60, 54, 44, 28, 114, 152, 197, 24, 147, 98, 143]));
    assert_eq!(ix.accounts[5].pubkey, payer);
    assert!(ix.accounts[5].is_signer);
    assert_eq!(ix.accounts[6].pubkey, payer);
    assert!(ix.accounts[6].is_signer);
    assert_eq!(ix.accounts[7].pubkey, system_program_id());
    assert_eq!(ix.accounts[8].pubkey, token_program_id());
    assert_eq!(ix.accounts[9].pubkey, rent_sysvar_id());
    let mut expected = vec![21u8, 197, 233, 12, 21, 197, 21, 147];
    expected.extend_from_slice(&encode_string("Fixture"));
    expected.extend_from_slice(&250u64.to_le_bytes());
    expected.extend_from_slice(&100u64.to_le_bytes());
    expected.extend_from_slice(&7u64.to_le_bytes());
    expected.extend_from_slice(&604800u64.to_le_bytes());
    assert_eq!(ix.data, expected);
}

#[test]
fn cancel_plan_builds_one_rescind_instruction() {
    let loan = Address::new([105, 199, 23, 236, 151, 194, 197, 39, 128, 237, 171, 136, 126, 223, 0, 65, 6, 21, 196, 108, 23, 183, 57, 135, 210, 84, 215, 241, 94, 105, 211, 41]);
    let lender = Address::new([3; 32]);
    let ixs = cancel_loan_plan(&loan, &fixture_loan_account(), &lender).unwrap();
    assert_eq!(ixs.len(), 1);
    let ix = &ixs[0];
    assert_eq!(ix.program_id, lending_program_id());
    assert_eq!(ix.accounts.len(), 10);
    assert_eq!(ix.accounts[0].pubkey, Address::new([97, 61, 36, 166, 133, 101, 143, 190, 203, 97, 35, 131, 183, 95, 22, 255, 117, 168, 141, 182, 95, 113, 175, 83, 30, 79, 139, 195, 140, 55, 163, 194]));
    assert_eq!(ix.accounts[1].pubkey, loan);
    assert_eq!(ix.accounts[3].pubkey, Address::new([237, 231, 252, 146, 208, 155, 34, 105, 133, 82, 251, 26, 107, 126, 68, 2, 205, 196, 62, 82, 208, 201, 149, 117, 186, 191, 70, 102, 54, 44, 243, 248]));
    assert_eq!(ix.accounts[4].pubkey, Address::new([123, 188, 153, 170, 222, 185, 246, 110, 47, 101, 218, 163, 146, 122, 132, 151, 76, 222, 31, 23, 120, 165, 92, 236, 133, 17, 117, 248, 51, 7, 33, 182]));
    assert_eq!(ix.accounts[5].pubkey, Address::new([245, 249, 139, 188, 184, 136, 171, 180, 162, 216, 171, 192, 162, 39, 162, 171, 195, 209, 242, 138, 242, 212, 204, 144, 14, 214, 132, 81, 108, 139, 234, 89]));
    assert_eq!(ix.accounts[6].pubkey, Address::new([89, 242, 87, 139, 3, 214, 149, 171, 230, 215, 68, 186, 247, 72, 87, 26, 103, 80, 153, 181, 51, 29, 114, 14, 118, 111, 183, 71, 4, 209, 93, 150]));
    assert_eq!(ix.accounts[7].pubkey, lender);
    assert!(ix.accounts[7].is_signer);
    assert_eq!(ix.data, vec![64u8, 64, 160, 211, 51, 36, 177, 158]);
}

#[test]
fn take_plan_prepends_creation_only_when_account_missing() {
    let loan = Address::new([105, 199, 23, 236, 151, 194, 197, 39, 128, 237, 171, 136, 126, 223, 0, 65, 6, 21, 196, 108, 23, 183, 57, 135, 210, 84, 215, 241, 94, 105, 211, 41]);
    let borrower = Address::new([3; 32]);
    let collateral = Address::new([4; 32]);
    let with = take_loan_plan(&loan, &fixture_loan_account(), &collateral, &borrower, true)
        .unwrap();
    assert_eq!(with.len(), 1);
    let without = take_loan_plan(&loan, &fixture_loan_account(), &collateral, &borrower, false)
        .unwrap();
    assert_eq!(without.len(), 2);
    assert_eq!(without[0].program_id, associated_token_program_id());
    assert_eq!(without[1].data, with[0].data);
}

#[test]
fn take_instruction_uses_metadata_pdas() {
    let loan = Address::new([105, 199, 23, 236, 151, 194, 197, 39, 128, 237, 171, 136, 126, 223, 0, 65, 6, 21, 196, 108, 23, 183, 57, 135, 210, 84, 215, 241, 94, 105, 211, 41]);
    let borrower = Address::new([3; 32]);
    let collateral = Address::new([4; 32]);
    let ixs = take_loan_plan(&loan, &fixture_loan_account(), &collateral, &borrower, true)
        .unwrap();
    let ix = &ixs[0];
    assert_eq!(ix.accounts.len(), 16);
    assert_eq!(ix.accounts[0].pubkey, Address::new([97, 61, 36, 166, 133, 101, 143, 190, 203, 97, 35, 131, 183, 95, 22, 255, 117, 168, 141, 182, 95, 113, 175, 83, 30, 79, 139, 195, 140, 55, 163, 194]));
    assert_eq!(ix.accounts[1].pubkey, loan);
    assert_eq!(ix.accounts[3].pubkey, collateral);
    assert_eq!(ix.accounts[4].pubkey, Address::new([178, 184, 143, 54, 133, 210, 32, 113, 120, 141, 167, 203, 118, 153, 70, 203, 42, 87, 188, 155, 2, 47, 87, 122, 7, 204, 209, 56, 67, 197, 214, 200]));
    assert_eq!(ix.accounts[5].pubkey, Address::new([245, 155, 161, 89, 86, 90, 122, 103, 229, 196, 151, 52, 196, 101, 89, 126, 113, 5, 237, 144, 208, 205, 60, 211, 218, 150, 118, 15, 63, 88, 228, 133]));
    assert_eq!(ix.accounts[6].pubkey, Address::new([237, 231, 252, 146, 208, 155, 34, 105, 133, 82, 251, 26, 107, 126, 68, 2, 205, 196, 62, 82, 208, 201, 149, 117, 186, 191, 70, 102, 54, 44, 243, 248]));
    assert_eq!(ix.accounts[7].pubkey, Address::new([123, 188, 153, 170, 222, 185, 246, 110, 47, 101, 218, 163, 146, 122, 132, 151, 76, 222, 31, 23, 120, 165, 92, 236, 133, 17, 117, 248, 51, 7, 33, 182]));
    assert_eq!(ix.accounts[8].pubkey, Address::new([89, 242, 87, 139, 3, 214, 149, 171, 230, 215, 68, 186, 247, 72, 87, 26, 103, 80, 153, 181, 51, 29, 114, 14, 118, 111, 183, 71, 4, 209, 93, 150]));
    assert_eq!(ix.accounts[11].pubkey, borrower);
    assert!(ix.accounts[11].is_signer);
    assert_eq!(ix.accounts[13].pubkey, metadata_program_id());
    assert_eq!(ix.data, vec![153u8, 53, 51, 59, 222, 102, 52, 131]);
}

#[test]
fn repay_instruction_accounts_and_payload_are_exact() {
    let profile = Address::new([10; 32]);
    let loan = Address::new([11; 32]);
    let loan_mint = Address::new([12; 32]);
    let token_vault = Address::new([13; 32]);
    let vault = Address::new([14; 32]);
    let collateral_mint = Address::new([15; 32]);
    let collateral_edition = Address::new([16; 32]);
    let escrow = Address::new([17; 32]);
    let escrow_token_account = Address::new([18; 32]);
    let borrower_account = Address::new([19; 32]);
    let borrower_token_account = Address::new([20; 32]);
    let borrower_collateral_account = Address::new([21; 32]);
    let borrower = Address::new([22; 32]);
    let lender = Address::new([23; 32]);
    let lender_token_account = Address::new([24; 32]);
    let ix = repay_loan(
        &profile,
        &loan,
        &loan_mint,
        &token_vault,
        &vault,
        &collateral_mint,
        &collateral_edition,
        &escrow,
        &escrow_token_account,
        &borrower_account,
        &borrower_token_account,
        &borrower_collateral_account,
        &borrower,
        &lender,
        &lender_token_account,
        777,
    );
    assert_eq!(ix.program_id, lending_program_id());
    assert_eq!(ix.accounts.len(), 18);
    assert_eq!(ix.accounts[0].pubkey, profile);
    assert_eq!(ix.accounts[1].pubkey, loan);
    assert_eq!(ix.accounts[2].pubkey, escrow);
    assert_eq!(ix.accounts[3].pubkey, escrow_token_account);
    assert_eq!(ix.accounts[4].pubkey, vault);
    assert_eq!(ix.accounts[5].pubkey, loan_mint);
    assert_eq!(ix.accounts[6].pubkey, collateral_mint);
    assert_eq!(ix.accounts[7].pubkey, collateral_edition);
    assert_eq!(ix.accounts[8].pubkey, token_vault);
    assert_eq!(ix.accounts[9].pubkey, borrower_account);
    assert_eq!(ix.accounts[10].pubkey, borrower_token_account);
    assert_eq!(ix.accounts[11].pubkey, borrower_collateral_account);
    assert_eq!(ix.accounts[12].pubkey, lender);
    assert_eq!(ix.accounts[13].pubkey, lender_token_account);
    assert_eq!(ix.accounts[14].pubkey, borrower);
    assert!(ix.accounts[14].is_signer);
    assert_eq!(ix.accounts[15].pubkey, token_program_id());
    assert_eq!(ix.accounts[16].pubkey, metadata_program_id());
    assert_eq!(ix.accounts[17].pubkey, system_program_id());
    let mut expected = vec![224u8, 93, 144, 77, 61, 17, 137, 54];
    expected.extend_from_slice(&777u64.to_le_bytes());
    assert_eq!(ix.data, expected);
}
