//! Instruction plans for the client's top-level operations.
//!
//! Each plan is the pure core of one operation: it takes the already
//! fetched records and probe results, derives every protocol address,
//! and returns the ordered instruction list to submit in one
//! transaction. The probe-then-create pattern is explicit: a caller
//! probes whether the relevant token account exists, and the plan
//! prepends the account-creation instruction exactly when it is absent.
//!
//! Every plan returns None only in the astronomically unlikely event
//! that an address derivation finds no disambiguation byte.

use vstd::prelude::*;
use vstd::utf8::encode_utf8;
use crate::accounts::{
    CollectionLendingProfile, Loan, User, spec_profile_address, spec_profile_vault_address,
    spec_vault_authority_address, spec_loan_address, spec_escrow_address,
    spec_escrow_token_account_address, spec_user_address, spec_try_profile_address,
    spec_try_profile_vault_address, spec_try_vault_authority_address, spec_try_loan_address,
    spec_try_escrow_address, spec_try_escrow_token_account_address, spec_try_user_address,
};
use crate::addresses::{
    Address, spec_lending_program_id, spec_token_program_id, spec_associated_token_address,
    spec_metadata_account, spec_master_edition_account, token_program_id,
    get_associated_token_address, find_metadata_account, find_master_edition_account,
};
use crate::instructions::{
    Instruction, InstructionView, CreateCollectionLendingProfileArgs, OfferLoanArgs,
    spec_create_lending_profile_accounts, spec_create_lending_profile_data,
    spec_offer_loan_accounts, spec_offer_loan_data, spec_rescind_loan_accounts,
    spec_rescind_loan_data, spec_take_loan_accounts, spec_take_loan_data,
    spec_create_associated_token_account_ix, create_lending_profile, offer_loan, rescind_loan,
    take_loan, create_associated_token_account,
};
use crate::utils::{zero_pad, encode_string};

verus! {

/// The loan id a lender's next offer uses: the count in the lender's
/// user record, or zero when no record exists yet.
pub open spec fn spec_next_loan_id(user_account: Option<User>) -> u64 {
    match user_account {
        Some(u) => u.loans_offered,
        None => 0u64,
    }
}

/// When profile-creation planning succeeds: every derivation in its
/// chain finds a disambiguation byte.
pub open spec fn spec_create_lending_profile_plan_succeeds(
    collection_mint: Seq<u8>,
    token_mint: Seq<u8>,
    id: u64,
) -> bool {
    let profile = spec_profile_address(collection_mint, token_mint, id).0;
    &&& spec_try_profile_address(collection_mint, token_mint, id) is Some
    &&& spec_try_profile_vault_address(profile) is Some
    &&& spec_try_vault_authority_address(profile) is Some
}

/// The profile-creation instruction of a creation plan.
pub open spec fn spec_create_lending_profile_plan_ix(
    collection_mint: Seq<u8>,
    token_mint: Seq<u8>,
    id: u64,
    loan_duration: u64,
    interest_rate: u64,
    fee_rate: u64,
    name_bytes: Seq<u8>,
    payer: Seq<u8>,
) -> InstructionView {
    let profile = spec_profile_address(collection_mint, token_mint, id).0;
    let token_vault = spec_profile_vault_address(profile).0;
    let vault = spec_vault_authority_address(profile).0;
    InstructionView {
        program_id: spec_lending_program_id(),
        accounts: spec_create_lending_profile_accounts(
            profile,
            collection_mint,
            token_mint,
            token_vault,
            vault,
            payer,
            payer,
        ),
        data: spec_create_lending_profile_data(
            name_bytes,
            interest_rate,
            fee_rate,
            id,
            loan_duration,
        ),
    }
}

/// Plans the creation of a CollectionLendingProfile: derives the
/// profile, vault and vault-authority addresses and builds the one
/// creation instruction, with the payer as authority and fee payer.
pub fn create_lending_profile_plan(
    collection_name: &str,
    collection_mint: &Address,
    token_mint: &Address,
    id: u64,
    loan_duration: u64,
    interest_rate: u64,
    fee_rate: u64,
    payer: &Address,
) -> (r: Option<Vec<Instruction>>)
    requires
        encode_utf8(collection_name@).len() <= 32,
    ensures
        r is Some <==> spec_create_lending_profile_plan_succeeds(
            collection_mint@,
            token_mint@,
            id,
        ),
        r matches Some(ixs) ==> ixs@.map_values(|x: Instruction| x@)
            == seq![
            spec_create_lending_profile_plan_ix(
                collection_mint@,
                token_mint@,
                id,
                loan_duration,
                interest_rate,
                fee_rate,
                zero_pad(encode_utf8(collection_name@), 32),
                payer@,
            ),
        ],
{
    let (profile, _) = match CollectionLendingProfile::derive_address(
        collection_mint,
        token_mint,
        id,
    ) {
        Some(p) => p,
        None => {
            return None;
        },
    };
    let (token_vault, _) = match CollectionLendingProfile::derive_vault_address(&profile) {
        Some(p) => p,
        None => {
            return None;
        },
    };
    let (vault, _) = match CollectionLendingProfile::derive_vault_authority_address(&profile) {
        Some(p) => p,
        None => {
            return None;
        },
    };
    let encoded_name = encode_string(collection_name);
    let args = CreateCollectionLendingProfileArgs {
        collection_name: encoded_name,
        interest_rate,
        fee_rate,
        id,
        loan_duration,
    };
    let ix = create_lending_profile(
        &profile,
        collection_mint,
        token_mint,
        &token_vault,
        &vault,
        payer,
        payer,
        &args,
    );
    let mut ixs: Vec<Instruction> = Vec::new();
    ixs.push(ix);
    proof {
        assert(ixs@.map_values(|x: Instruction| x@) =~= seq![
            spec_create_lending_profile_plan_ix(
                collection_mint@,
                token_mint@,
                id,
                loan_duration,
                interest_rate,
                fee_rate,
                zero_pad(encode_utf8(collection_name@), 32),
                payer@,
            ),
        ]);
    }
    Some(ixs)
}

/// The loan-offer instruction of an offer plan.
pub open spec fn spec_offer_loan_plan_ix(
    profile: Seq<u8>,
    token_mint: Seq<u8>,
    lender: Seq<u8>,
    loan_id: u64,
    amount: u64,
) -> InstructionView {
    let user = spec_user_address(lender).0;
    let loan = spec_loan_address(profile, lender, loan_id).0;
    let escrow = spec_escrow_address(loan).0;
    let escrow_token_account = spec_escrow_token_account_address(escrow).0;
    let lender_token_account = spec_associated_token_address(lender, token_mint);
    InstructionView {
        program_id: spec_lending_program_id(),
        accounts: spec_offer_loan_accounts(
            profile,
            loan,
            token_mint,
            escrow,
            escrow_token_account,
            lender_token_account,
            user,
            lender,
        ),
        data: spec_offer_loan_data(amount, loan_id),
    }
}

/// When loan-offer planning succeeds: every derivation in its chain
/// finds a disambiguation byte.
pub open spec fn spec_create_loan_plan_succeeds(
    profile: Seq<u8>,
    lender: Seq<u8>,
    loan_id: u64,
) -> bool {
    let loan = spec_loan_address(profile, lender, loan_id).0;
    let escrow = spec_escrow_address(loan).0;
    &&& spec_try_user_address(lender) is Some
    &&& spec_try_loan_address(profile, lender, loan_id) is Some
    &&& spec_try_escrow_address(loan) is Some
    &&& spec_try_escrow_token_account_address(escrow) is Some
}

/// The instruction list of a loan-offer plan: the offer instruction,
/// preceded by exactly one token-account creation instruction when the
/// lender's loan-currency token account does not exist yet.
pub open spec fn spec_create_loan_plan(
    profile: Seq<u8>,
    token_mint: Seq<u8>,
    lender: Seq<u8>,
    loan_id: u64,
    amount: u64,
    lender_token_account_exists: bool,
) -> Seq<InstructionView> {
    let offer = spec_offer_loan_plan_ix(profile, token_mint, lender, loan_id, amount);
    if lender_token_account_exists {
        seq![offer]
    } else {
        seq![
            spec_create_associated_token_account_ix(
                lender,
                lender,
                token_mint,
                spec_token_program_id(),
            ),
            offer,
        ]
    }
}

/// Plans a loan offer for a lender against a fetched profile record:
/// picks the next loan id from the lender's user record, derives the
/// loan, escrow and user addresses, and prepends a token-account
/// creation instruction exactly when the probe found none.
pub fn create_loan_plan(
    profile: &Address,
    profile_account: &CollectionLendingProfile,
    lender: &Address,
    user_account: Option<&User>,
    amount: u64,
    lender_token_account_exists: bool,
) -> (r: Option<Vec<Instruction>>)
    ensures
        r is Some <==> spec_create_loan_plan_succeeds(
            profile@,
            lender@,
            spec_next_loan_id(match user_account {
                Some(u) => Some(*u),
                None => None,
            }),
        ),
        r matches Some(ixs) ==> ixs@.map_values(|x: Instruction| x@) == spec_create_loan_plan(
            profile@,
            profile_account.token_mint@,
            lender@,
            spec_next_loan_id(match user_account {
                Some(u) => Some(*u),
                None => None,
            }),
            amount,
            lender_token_account_exists,
        ),
{
    let loan_id: u64 = match user_account {
        Some(u) => u.loans_offered,
        None => 0,
    };
    let (user, _) = match User::derive_address(lender) {
        Some(p) => p,
        None => {
            return None;
        },
    };
    let (loan, _) = match Loan::derive_address(profile, lender, loan_id) {
        Some(p) => p,
        None => {
            return None;
        },
    };
    let (escrow, _) = match Loan::derive_escrow_address(&loan) {
        Some(p) => p,
        None => {
            return None;
        },
    };
    let (escrow_token_account, _) = match Loan::derive_escrow_token_account_address(&escrow) {
        Some(p) => p,
        None => {
            return None;
        },
    };
    let lender_token_account = get_associated_token_address(lender, &profile_account.token_mint);
    let args = OfferLoanArgs { amount, id: loan_id };
    let mut ixs: Vec<Instruction> = Vec::new();
    if !lender_token_account_exists {
        ixs.push(create_associated_token_account(
            lender,
            lender,
            &profile_account.token_mint,
            &token_program_id(),
        ));
    }
    ixs.push(offer_loan(
        profile,
        &loan,
        &profile_account.token_mint,
        &escrow,
        &escrow_token_account,
        &lender_token_account,
        &user,
        lender,
        &args,
    ));
    proof {
        assert(ixs@.map_values(|x: Instruction| x@) =~= spec_create_loan_plan(
            profile@,
            profile_account.token_mint@,
            lender@,
            loan_id,
            amount,
            lender_token_account_exists,
        ));
    }
    Some(ixs)
}

/// When cancellation planning succeeds: every derivation in its chain
/// finds a disambiguation byte.
pub open spec fn spec_cancel_loan_plan_succeeds(loan: Seq<u8>, lender: Seq<u8>) -> bool {
    let escrow = spec_escrow_address(loan).0;
    &&& spec_try_user_address(lender) is Some
    &&& spec_try_escrow_address(loan) is Some
    &&& spec_try_escrow_token_account_address(escrow) is Some
}

/// The rescind instruction of a cancellation plan.
pub open spec fn spec_cancel_loan_plan_ix(
    loan: Seq<u8>,
    loan_profile: Seq<u8>,
    loan_mint: Seq<u8>,
    lender: Seq<u8>,
) -> InstructionView {
    let user = spec_user_address(lender).0;
    let escrow = spec_escrow_address(loan).0;
    let escrow_token_account = spec_escrow_token_account_address(escrow).0;
    let lender_token_account = spec_associated_token_address(lender, loan_mint);
    InstructionView {
        program_id: spec_lending_program_id(),
        accounts: spec_rescind_loan_accounts(
            loan_profile,
            loan,
            loan_mint,
            escrow,
            escrow_token_account,
            lender_token_account,
            user,
            lender,
        ),
        data: spec_rescind_loan_data(),
    }
}

/// Plans the cancellation of an offered loan from its fetched record:
/// derives the escrow and user addresses and builds the one rescind
/// instruction.
pub fn cancel_loan_plan(loan: &Address, loan_account: &Loan, lender: &Address) -> (r: Option<
    Vec<Instruction>,
>)
    ensures
        r is Some <==> spec_cancel_loan_plan_succeeds(loan@, lender@),
        r matches Some(ixs) ==> ixs@.map_values(|x: Instruction| x@) == seq![
            spec_cancel_loan_plan_ix(
                loan@,
                loan_account.profile@,
                loan_account.loan_mint@,
                lender@,
            ),
        ],
{
    let (user, _) = match User::derive_address(lender) {
        Some(p) => p,
        None => {
            return None;
        },
    };
    let (escrow, _) = match Loan::derive_escrow_address(loan) {
        Some(p) => p,
        None => {
            return None;
        },
    };
    let (escrow_token_account, _) = match Loan::derive_escrow_token_account_address(&escrow) {
        Some(p) => p,
        None => {
            return None;
        },
    };
    let lender_token_account = get_associated_token_address(lender, &loan_account.loan_mint);
    let mut ixs: Vec<Instruction> = Vec::new();
    ixs.push(rescind_loan(
        &loan_account.profile,
        loan,
        &loan_account.loan_mint,
        &escrow,
        &escrow_token_account,
        &lender_token_account,
        &user,
        lender,
    ));
    proof {
        assert(ixs@.map_values(|x: Instruction| x@) =~= seq![
            spec_cancel_loan_plan_ix(
                loan@,
                loan_account.profile@,
                loan_account.loan_mint@,
                lender@,
            ),
        ]);
    }
    Some(ixs)
}

/// When take planning succeeds: every derivation in its chain finds a
/// disambiguation byte.
pub open spec fn spec_take_loan_plan_succeeds(loan: Seq<u8>, borrower: Seq<u8>) -> bool {
    let escrow = spec_escrow_address(loan).0;
    &&& spec_try_user_address(borrower) is Some
    &&& spec_try_escrow_address(loan) is Some
    &&& spec_try_escrow_token_account_address(escrow) is Some
}

/// The take instruction of a take plan.
pub open spec fn spec_take_loan_plan_ix(
    loan: Seq<u8>,
    loan_profile: Seq<u8>,
    loan_mint: Seq<u8>,
    collateral_mint: Seq<u8>,
    borrower: Seq<u8>,
) -> InstructionView {
    let user = spec_user_address(borrower).0;
    let escrow = spec_escrow_address(loan).0;
    let escrow_token_account = spec_escrow_token_account_address(escrow).0;
    let collateral_metadata = spec_metadata_account(collateral_mint).0;
    let collateral_edition = spec_master_edition_account(collateral_mint).0;
    let borrower_token_account = spec_associated_token_address(borrower, loan_mint);
    let borrower_collateral_account = spec_associated_token_address(borrower, collateral_mint);
    InstructionView {
        program_id: spec_lending_program_id(),
        accounts: spec_take_loan_accounts(
            loan_profile,
            loan,
            loan_mint,
            collateral_mint,
            collateral_metadata,
            collateral_edition,
            escrow,
            escrow_token_account,
            user,
            borrower_token_account,
            borrower_collateral_account,
            borrower,
        ),
        data: spec_take_loan_data(),
    }
}

/// The instruction list of a take plan: the take instruction, preceded
/// by exactly one token-account creation instruction when the
/// borrower's loan-currency token account does not exist yet.
pub open spec fn spec_take_loan_plan(
    loan: Seq<u8>,
    loan_profile: Seq<u8>,
    loan_mint: Seq<u8>,
    collateral_mint: Seq<u8>,
    borrower: Seq<u8>,
    borrower_token_account_exists: bool,
) -> Seq<InstructionView> {
    let take = spec_take_loan_plan_ix(loan, loan_profile, loan_mint, collateral_mint, borrower);
    if borrower_token_account_exists {
        seq![take]
    } else {
        seq![
            spec_create_associated_token_account_ix(
                borrower,
                borrower,
                loan_mint,
                spec_token_program_id(),
            ),
            take,
        ]
    }
}

/// Plans taking an offered loan from its fetched record: derives the
/// escrow, user, metadata and token-account addresses, and prepends a
/// token-account creation instruction exactly when the probe found
/// none.
pub fn take_loan_plan(
    loan: &Address,
    loan_account: &Loan,
    collateral_mint: &Address,
    borrower: &Address,
    borrower_token_account_exists: bool,
) -> (r: Option<Vec<Instruction>>)
    ensures
        r is Some <==> spec_take_loan_plan_succeeds(loan@, borrower@),
        r matches Some(ixs) ==> ixs@.map_values(|x: Instruction| x@) == spec_take_loan_plan(
            loan@,
            loan_account.profile@,
            loan_account.loan_mint@,
            collateral_mint@,
            borrower@,
            borrower_token_account_exists,
        ),
{
    let (user, _) = match User::derive_address(borrower) {
        Some(p) => p,
        None => {
            return None;
        },
    };
    let (escrow, _) = match Loan::derive_escrow_address(loan) {
        Some(p) => p,
        None => {
            return None;
        },
    };
    let (escrow_token_account, _) = match Loan::derive_escrow_token_account_address(&escrow) {
        Some(p) => p,
        None => {
            return None;
        },
    };
    let (collateral_metadata, _) = find_metadata_account(collateral_mint);
    let (collateral_edition, _) = find_master_edition_account(collateral_mint);
    let borrower_token_account = get_associated_token_address(borrower, &loan_account.loan_mint);
    let borrower_collateral_account = get_associated_token_address(borrower, collateral_mint);
    let mut ixs: Vec<Instruction> = Vec::new();
    if !borrower_token_account_exists {
        ixs.push(create_associated_token_account(
            borrower,
            borrower,
            &loan_account.loan_mint,
            &token_program_id(),
        ));
    }
    ixs.push(take_loan(
        &loan_account.profile,
        loan,
        &loan_account.loan_mint,
        collateral_mint,
        &collateral_metadata,
        &collateral_edition,
        &escrow,
        &escrow_token_account,
        &user,
        &borrower_token_account,
        &borrower_collateral_account,
        borrower,
    ));
    proof {
        assert(ixs@.map_values(|x: Instruction| x@) =~= spec_take_loan_plan(
            loan@,
            loan_account.profile@,
            loan_account.loan_mint@,
            collateral_mint@,
            borrower@,
            borrower_token_account_exists,
        ));
    }
    Some(ixs)
}

/// Probe-then-create, stated once: a plan whose probe found no token
/// account holds exactly one more instruction than one whose probe
/// found it, that one extra instruction is the account creation placed
/// first, and the protocol instruction itself is the same in both.
pub proof fn lemma_offer_plan_prepends_exactly_one(
    profile: Seq<u8>,
    token_mint: Seq<u8>,
    lender: Seq<u8>,
    loan_id: u64,
    amount: u64,
)
    ensures
        spec_create_loan_plan(profile, token_mint, lender, loan_id, amount, true).len() == 1,
        spec_create_loan_plan(profile, token_mint, lender, loan_id, amount, false).len() == 2,
        spec_create_loan_plan(profile, token_mint, lender, loan_id, amount, false)[1]
            == spec_create_loan_plan(profile, token_mint, lender, loan_id, amount, true)[0],
        spec_create_loan_plan(profile, token_mint, lender, loan_id, amount, false)[0]
            == spec_create_associated_token_account_ix(
            lender,
            lender,
            token_mint,
            spec_token_program_id(),
        ),
{
}

} // verus!
