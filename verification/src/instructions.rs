//! Construction of the protocol's instructions.
//!
//! Each builder is a pure mapping from pre-derived addresses and a typed
//! argument payload to one well-formed instruction. The ordered account
//! list with its signer/writable flags, and the binary argument layout,
//! are part of the external program's ABI: the tables below are that
//! contract, written once per operation.

use vstd::prelude::*;
use vstd::bytes::{spec_u64_to_le_bytes, u64_to_le_bytes};
use crate::addresses::{
    Address, spec_lending_program_id, lending_program_id, spec_system_program_id,
    system_program_id, spec_token_program_id, token_program_id,
    spec_associated_token_program_id, associated_token_program_id, spec_rent_sysvar_id,
    rent_sysvar_id, spec_metadata_program_id, metadata_program_id,
};

verus! {

/// One account handed to an instruction, with its access flags.
#[derive(Clone, Copy, Debug)]
pub struct AccountMeta {
    /// The account's address.
    pub pubkey: Address,
    /// Whether the account must sign the transaction.
    pub is_signer: bool,
    /// Whether the instruction may write to the account.
    pub is_writable: bool,
}

/// Mathematical view of an [`AccountMeta`].
#[verifier::ext_equal]
pub struct AccountMetaView {
    /// Bytes of the account's address.
    pub pubkey: Seq<u8>,
    /// Whether the account must sign the transaction.
    pub is_signer: bool,
    /// Whether the instruction may write to the account.
    pub is_writable: bool,
}

impl View for AccountMeta {
    type V = AccountMetaView;

    open spec fn view(&self) -> AccountMetaView {
        AccountMetaView {
            pubkey: self.pubkey@,
            is_signer: self.is_signer,
            is_writable: self.is_writable,
        }
    }
}

/// One instruction for the protocol's program.
#[derive(Clone, Debug)]
pub struct Instruction {
    /// The program the instruction invokes.
    pub program_id: Address,
    /// The ordered accounts the instruction touches.
    pub accounts: Vec<AccountMeta>,
    /// The instruction's binary payload.
    pub data: Vec<u8>,
}

/// Mathematical view of an [`Instruction`].
#[verifier::ext_equal]
pub struct InstructionView {
    /// Bytes of the program's address.
    pub program_id: Seq<u8>,
    /// The ordered account list.
    pub accounts: Seq<AccountMetaView>,
    /// The binary payload.
    pub data: Seq<u8>,
}

impl View for Instruction {
    type V = InstructionView;

    open spec fn view(&self) -> InstructionView {
        InstructionView {
            program_id: self.program_id@,
            accounts: self.accounts@.map_values(|a: AccountMeta| a@),
            data: self.data@,
        }
    }
}

/// Shorthand for one entry of an account table.
pub open spec fn meta(pubkey: Seq<u8>, is_signer: bool, is_writable: bool) -> AccountMetaView {
    AccountMetaView { pubkey, is_signer, is_writable }
}

/// Typed payload of the profile-creation instruction.
#[derive(Clone, Debug)]
pub struct CreateCollectionLendingProfileArgs {
    /// Fixed-width collection name, zero-padded UTF-8 bytes.
    pub collection_name: Vec<u8>,
    /// Interest rate in basis points.
    pub interest_rate: u64,
    /// Fee rate in basis points.
    pub fee_rate: u64,
    /// The profile's numeric id.
    pub id: u64,
    /// Loan duration in seconds.
    pub loan_duration: u64,
}

impl CreateCollectionLendingProfileArgs {
    /// The name field holds exactly its declared width.
    pub open spec fn wf(&self) -> bool {
        self.collection_name@.len() == 32
    }
}

/// Typed payload of the loan-offer instruction.
#[derive(Clone, Copy, Debug)]
pub struct OfferLoanArgs {
    /// The amount to lend.
    pub amount: u64,
    /// The loan's sequential id.
    pub id: u64,
}

/// Discriminator bytes of the create lending profile instruction.
pub open spec fn spec_create_lending_profile_ix_discriminator() -> Seq<u8> {
    seq![21u8, 197u8, 233u8, 12u8, 21u8, 197u8, 21u8, 147u8]
}

/// Exec value of [`spec_create_lending_profile_ix_discriminator`].
pub fn create_lending_profile_ix_discriminator() -> (r: Vec<u8>)
    ensures
        r@ == spec_create_lending_profile_ix_discriminator(),
{
    let a: [u8; 8] = [21, 197, 233, 12, 21, 197, 21, 147];
    let v = vstd::slice::slice_to_vec(a.as_slice());
    proof {
        assert(v@ =~= spec_create_lending_profile_ix_discriminator());
    }
    v
}

/// Discriminator bytes of the offer loan instruction.
pub open spec fn spec_offer_loan_ix_discriminator() -> Seq<u8> {
    seq![44u8, 12u8, 76u8, 144u8, 210u8, 208u8, 239u8, 85u8]
}

/// Exec value of [`spec_offer_loan_ix_discriminator`].
pub fn offer_loan_ix_discriminator() -> (r: Vec<u8>)
    ensures
        r@ == spec_offer_loan_ix_discriminator(),
{
    let a: [u8; 8] = [44, 12, 76, 144, 210, 208, 239, 85];
    let v = vstd::slice::slice_to_vec(a.as_slice());
    proof {
        assert(v@ =~= spec_offer_loan_ix_discriminator());
    }
    v
}

/// Discriminator bytes of the rescind loan instruction.
pub open spec fn spec_rescind_loan_ix_discriminator() -> Seq<u8> {
    seq![64u8, 64u8, 160u8, 211u8, 51u8, 36u8, 177u8, 158u8]
}

/// Exec value of [`spec_rescind_loan_ix_discriminator`].
pub fn rescind_loan_ix_discriminator() -> (r: Vec<u8>)
    ensures
        r@ == spec_rescind_loan_ix_discriminator(),
{
    let a: [u8; 8] = [64, 64, 160, 211, 51, 36, 177, 158];
    let v = vstd::slice::slice_to_vec(a.as_slice());
    proof {
        assert(v@ =~= spec_rescind_loan_ix_discriminator());
    }
    v
}

/// Discriminator bytes of the take loan instruction.
pub open spec fn spec_take_loan_ix_discriminator() -> Seq<u8> {
    seq![153u8, 53u8, 51u8, 59u8, 222u8, 102u8, 52u8, 131u8]
}

/// Exec value of [`spec_take_loan_ix_discriminator`].
pub fn take_loan_ix_discriminator() -> (r: Vec<u8>)
    ensures
        r@ == spec_take_loan_ix_discriminator(),
{
    let a: [u8; 8] = [153, 53, 51, 59, 222, 102, 52, 131];
    let v = vstd::slice::slice_to_vec(a.as_slice());
    proof {
        assert(v@ =~= spec_take_loan_ix_discriminator());
    }
    v
}

/// Discriminator bytes of the repay loan instruction.
pub open spec fn spec_repay_loan_ix_discriminator() -> Seq<u8> {
    seq![224u8, 93u8, 144u8, 77u8, 61u8, 17u8, 137u8, 54u8]
}

/// Exec value of [`spec_repay_loan_ix_discriminator`].
pub fn repay_loan_ix_discriminator() -> (r: Vec<u8>)
    ensures
        r@ == spec_repay_loan_ix_discriminator(),
{
    let a: [u8; 8] = [224, 93, 144, 77, 61, 17, 137, 54];
    let v = vstd::slice::slice_to_vec(a.as_slice());
    proof {
        assert(v@ =~= spec_repay_loan_ix_discriminator());
    }
    v
}

/// Ordered account table of the profile-creation instruction.
pub open spec fn spec_create_lending_profile_accounts(profile: Seq<u8>, collection: Seq<u8>, token_mint: Seq<u8>, token_vault: Seq<u8>, vault: Seq<u8>, authority: Seq<u8>, payer: Seq<u8>) -> Seq<AccountMetaView> {
    seq![
        meta(profile, false, true),
        meta(collection, false, false),
        meta(token_mint, false, false),
        meta(token_vault, false, true),
        meta(vault, false, false),
        meta(authority, true, false),
        meta(payer, true, true),
        meta(spec_system_program_id(), false, false),
        meta(spec_token_program_id(), false, false),
        meta(spec_rent_sysvar_id(), false, false),
    ]
}

/// Binary payload of the profile-creation instruction.
pub open spec fn spec_create_lending_profile_data(
    collection_name: Seq<u8>,
    interest_rate: u64,
    fee_rate: u64,
    id: u64,
    loan_duration: u64,
) -> Seq<u8> {
    spec_create_lending_profile_ix_discriminator() + collection_name + spec_u64_to_le_bytes(
        interest_rate,
    ) + spec_u64_to_le_bytes(fee_rate) + spec_u64_to_le_bytes(id) + spec_u64_to_le_bytes(
        loan_duration,
    )
}

/// Builds the instruction that creates a CollectionLendingProfile.
pub fn create_lending_profile(
    profile: &Address,
    collection: &Address,
    token_mint: &Address,
    token_vault: &Address,
    vault: &Address,
    authority: &Address,
    payer: &Address,
    args: &CreateCollectionLendingProfileArgs,
) -> (r: Instruction)
    requires
        args.wf(),
    ensures
        r@.program_id == spec_lending_program_id(),
        r@.accounts == spec_create_lending_profile_accounts(
            profile@,
            collection@,
            token_mint@,
            token_vault@,
            vault@,
            authority@,
            payer@,
        ),
        r@.data == spec_create_lending_profile_data(
            args.collection_name@,
            args.interest_rate,
            args.fee_rate,
            args.id,
            args.loan_duration,
        ),
{
    let mut accounts: Vec<AccountMeta> = Vec::new();
    accounts.push(AccountMeta { pubkey: *profile, is_signer: false, is_writable: true });
    accounts.push(AccountMeta { pubkey: *collection, is_signer: false, is_writable: false });
    accounts.push(AccountMeta { pubkey: *token_mint, is_signer: false, is_writable: false });
    accounts.push(AccountMeta { pubkey: *token_vault, is_signer: false, is_writable: true });
    accounts.push(AccountMeta { pubkey: *vault, is_signer: false, is_writable: false });
    accounts.push(AccountMeta { pubkey: *authority, is_signer: true, is_writable: false });
    accounts.push(AccountMeta { pubkey: *payer, is_signer: true, is_writable: true });
    accounts.push(AccountMeta { pubkey: system_program_id(), is_signer: false, is_writable: false });
    accounts.push(AccountMeta { pubkey: token_program_id(), is_signer: false, is_writable: false });
    accounts.push(AccountMeta { pubkey: rent_sysvar_id(), is_signer: false, is_writable: false });
    let mut data = create_lending_profile_ix_discriminator();
    data.extend_from_slice(args.collection_name.as_slice());
    let interest_rate_bytes = u64_to_le_bytes(args.interest_rate);
    data.extend_from_slice(interest_rate_bytes.as_slice());
    let fee_rate_bytes = u64_to_le_bytes(args.fee_rate);
    data.extend_from_slice(fee_rate_bytes.as_slice());
    let id_bytes = u64_to_le_bytes(args.id);
    data.extend_from_slice(id_bytes.as_slice());
    let loan_duration_bytes = u64_to_le_bytes(args.loan_duration);
    data.extend_from_slice(loan_duration_bytes.as_slice());
    let ix = Instruction { program_id: lending_program_id(), accounts, data };
    proof {
        assert(ix@.accounts =~= spec_create_lending_profile_accounts(
            profile@,
            collection@,
            token_mint@,
            token_vault@,
            vault@,
            authority@,
            payer@,
        ));
        assert(ix@.data =~= spec_create_lending_profile_data(
            args.collection_name@,
            args.interest_rate,
            args.fee_rate,
            args.id,
            args.loan_duration,
        ));
    }
    ix
}

/// Ordered account table of the loan-offer instruction.
pub open spec fn spec_offer_loan_accounts(profile: Seq<u8>, loan: Seq<u8>, loan_mint: Seq<u8>, escrow: Seq<u8>, escrow_token_account: Seq<u8>, lender_token_account: Seq<u8>, lender_account: Seq<u8>, lender: Seq<u8>) -> Seq<AccountMetaView> {
    seq![
        meta(profile, false, true),
        meta(loan, false, true),
        meta(loan_mint, false, false),
        meta(escrow, false, true),
        meta(escrow_token_account, false, true),
        meta(lender_token_account, false, true),
        meta(lender_account, false, true),
        meta(lender, true, true),
        meta(spec_associated_token_program_id(), false, false),
        meta(spec_system_program_id(), false, false),
        meta(spec_token_program_id(), false, false),
        meta(spec_rent_sysvar_id(), false, false),
    ]
}

/// Binary payload of the loan-offer instruction.
pub open spec fn spec_offer_loan_data(amount: u64, id: u64) -> Seq<u8> {
    spec_offer_loan_ix_discriminator() + spec_u64_to_le_bytes(amount) + spec_u64_to_le_bytes(id)
}

/// Builds the loan-offer instruction.
pub fn offer_loan(
    profile: &Address,
    loan: &Address,
    loan_mint: &Address,
    escrow: &Address,
    escrow_token_account: &Address,
    lender_token_account: &Address,
    lender_account: &Address,
    lender: &Address,
    args: &OfferLoanArgs,
) -> (r: Instruction)
    ensures
        r@.program_id == spec_lending_program_id(),
        r@.accounts == spec_offer_loan_accounts(
            profile@,
            loan@,
            loan_mint@,
            escrow@,
            escrow_token_account@,
            lender_token_account@,
            lender_account@,
            lender@,
        ),
        r@.data == spec_offer_loan_data(args.amount, args.id),
{
    let mut accounts: Vec<AccountMeta> = Vec::new();
    accounts.push(AccountMeta { pubkey: *profile, is_signer: false, is_writable: true });
    accounts.push(AccountMeta { pubkey: *loan, is_signer: false, is_writable: true });
    accounts.push(AccountMeta { pubkey: *loan_mint, is_signer: false, is_writable: false });
    accounts.push(AccountMeta { pubkey: *escrow, is_signer: false, is_writable: true });
    accounts.push(AccountMeta { pubkey: *escrow_token_account, is_signer: false, is_writable: true });
    accounts.push(AccountMeta { pubkey: *lender_token_account, is_signer: false, is_writable: true });
    accounts.push(AccountMeta { pubkey: *lender_account, is_signer: false, is_writable: true });
    accounts.push(AccountMeta { pubkey: *lender, is_signer: true, is_writable: true });
    accounts.push(AccountMeta { pubkey: associated_token_program_id(), is_signer: false, is_writable: false });
    accounts.push(AccountMeta { pubkey: system_program_id(), is_signer: false, is_writable: false });
    accounts.push(AccountMeta { pubkey: token_program_id(), is_signer: false, is_writable: false });
    accounts.push(AccountMeta { pubkey: rent_sysvar_id(), is_signer: false, is_writable: false });
    let mut data = offer_loan_ix_discriminator();
    let amount_bytes = u64_to_le_bytes(args.amount);
    data.extend_from_slice(amount_bytes.as_slice());
    let id_bytes = u64_to_le_bytes(args.id);
    data.extend_from_slice(id_bytes.as_slice());
    let ix = Instruction { program_id: lending_program_id(), accounts, data };
    proof {
        assert(ix@.accounts =~= spec_offer_loan_accounts(
            profile@,
            loan@,
            loan_mint@,
            escrow@,
            escrow_token_account@,
            lender_token_account@,
            lender_account@,
            lender@,
        ));
        assert(ix@.data =~= spec_offer_loan_data(args.amount, args.id));
    }
    ix
}

/// Ordered account table of the loan-rescind instruction.
pub open spec fn spec_rescind_loan_accounts(profile: Seq<u8>, loan: Seq<u8>, loan_mint: Seq<u8>, escrow: Seq<u8>, escrow_token_account: Seq<u8>, lender_token_account: Seq<u8>, lender_account: Seq<u8>, lender: Seq<u8>) -> Seq<AccountMetaView> {
    seq![
        meta(profile, false, true),
        meta(loan, false, true),
        meta(loan_mint, false, false),
        meta(escrow, false, true),
        meta(escrow_token_account, false, true),
        meta(lender_token_account, false, true),
        meta(lender_account, false, true),
        meta(lender, true, true),
        meta(spec_token_program_id(), false, false),
        meta(spec_system_program_id(), false, false),
    ]
}

/// Binary payload of the loan-rescind instruction.
pub open spec fn spec_rescind_loan_data() -> Seq<u8> {
    spec_rescind_loan_ix_discriminator()
}

/// Builds the loan-rescind instruction.
pub fn rescind_loan(
    profile: &Address,
    loan: &Address,
    loan_mint: &Address,
    escrow: &Address,
    escrow_token_account: &Address,
    lender_token_account: &Address,
    lender_account: &Address,
    lender: &Address,
) -> (r: Instruction)
    ensures
        r@.program_id == spec_lending_program_id(),
        r@.accounts == spec_rescind_loan_accounts(
            profile@,
            loan@,
            loan_mint@,
            escrow@,
            escrow_token_account@,
            lender_token_account@,
            lender_account@,
            lender@,
        ),
        r@.data == spec_rescind_loan_data(),
{
    let mut accounts: Vec<AccountMeta> = Vec::new();
    accounts.push(AccountMeta { pubkey: *profile, is_signer: false, is_writable: true });
    accounts.push(AccountMeta { pubkey: *loan, is_signer: false, is_writable: true });
    accounts.push(AccountMeta { pubkey: *loan_mint, is_signer: false, is_writable: false });
    accounts.push(AccountMeta { pubkey: *escrow, is_signer: false, is_writable: true });
    accounts.push(AccountMeta { pubkey: *escrow_token_account, is_signer: false, is_writable: true });
    accounts.push(AccountMeta { pubkey: *lender_token_account, is_signer: false, is_writable: true });
    accounts.push(AccountMeta { pubkey: *lender_account, is_signer: false, is_writable: true });
    accounts.push(AccountMeta { pubkey: *lender, is_signer: true, is_writable: true });
    accounts.push(AccountMeta { pubkey: token_program_id(), is_signer: false, is_writable: false });
    accounts.push(AccountMeta { pubkey: system_program_id(), is_signer: false, is_writable: false });
    let data = rescind_loan_ix_discriminator();
    let ix = Instruction { program_id: lending_program_id(), accounts, data };
    proof {
        assert(ix@.accounts =~= spec_rescind_loan_accounts(
            profile@,
            loan@,
            loan_mint@,
            escrow@,
            escrow_token_account@,
            lender_token_account@,
            lender_account@,
            lender@,
        ));
        assert(ix@.data =~= spec_rescind_loan_data());
    }
    ix
}

/// Ordered account table of the loan-take instruction.
pub open spec fn spec_take_loan_accounts(profile: Seq<u8>, loan: Seq<u8>, loan_mint: Seq<u8>, collateral_mint: Seq<u8>, collateral_metadata: Seq<u8>, collateral_edition: Seq<u8>, escrow: Seq<u8>, escrow_token_account: Seq<u8>, borrower_account: Seq<u8>, borrower_token_account: Seq<u8>, borrower_collateral_account: Seq<u8>, borrower: Seq<u8>) -> Seq<AccountMetaView> {
    seq![
        meta(profile, false, true),
        meta(loan, false, true),
        meta(loan_mint, false, false),
        meta(collateral_mint, false, false),
        meta(collateral_metadata, false, true),
        meta(collateral_edition, false, false),
        meta(escrow, false, true),
        meta(escrow_token_account, false, true),
        meta(borrower_account, false, true),
        meta(borrower_token_account, false, true),
        meta(borrower_collateral_account, false, true),
        meta(borrower, true, true),
        meta(spec_token_program_id(), false, false),
        meta(spec_metadata_program_id(), false, false),
        meta(spec_system_program_id(), false, false),
        meta(spec_rent_sysvar_id(), false, false),
    ]
}

/// Binary payload of the loan-take instruction.
pub open spec fn spec_take_loan_data() -> Seq<u8> {
    spec_take_loan_ix_discriminator()
}

/// Builds the loan-take instruction.
pub fn take_loan(
    profile: &Address,
    loan: &Address,
    loan_mint: &Address,
    collateral_mint: &Address,
    collateral_metadata: &Address,
    collateral_edition: &Address,
    escrow: &Address,
    escrow_token_account: &Address,
    borrower_account: &Address,
    borrower_token_account: &Address,
    borrower_collateral_account: &Address,
    borrower: &Address,
) -> (r: Instruction)
    ensures
        r@.program_id == spec_lending_program_id(),
        r@.accounts == spec_take_loan_accounts(
            profile@,
            loan@,
            loan_mint@,
            collateral_mint@,
            collateral_metadata@,
            collateral_edition@,
            escrow@,
            escrow_token_account@,
            borrower_account@,
            borrower_token_account@,
            borrower_collateral_account@,
            borrower@,
        ),
        r@.data == spec_take_loan_data(),
{
    let mut accounts: Vec<AccountMeta> = Vec::new();
    accounts.push(AccountMeta { pubkey: *profile, is_signer: false, is_writable: true });
    accounts.push(AccountMeta { pubkey: *loan, is_signer: false, is_writable: true });
    accounts.push(AccountMeta { pubkey: *loan_mint, is_signer: false, is_writable: false });
    accounts.push(AccountMeta { pubkey: *collateral_mint, is_signer: false, is_writable: false });
    accounts.push(AccountMeta { pubkey: *collateral_metadata, is_signer: false, is_writable: true });
    accounts.push(AccountMeta { pubkey: *collateral_edition, is_signer: false, is_writable: false });
    accounts.push(AccountMeta { pubkey: *escrow, is_signer: false, is_writable: true });
    accounts.push(AccountMeta { pubkey: *escrow_token_account, is_signer: false, is_writable: true });
    accounts.push(AccountMeta { pubkey: *borrower_account, is_signer: false, is_writable: true });
    accounts.push(AccountMeta { pubkey: *borrower_token_account, is_signer: false, is_writable: true });
    accounts.push(AccountMeta { pubkey: *borrower_collateral_account, is_signer: false, is_writable: true });
    accounts.push(AccountMeta { pubkey: *borrower, is_signer: true, is_writable: true });
    accounts.push(AccountMeta { pubkey: token_program_id(), is_signer: false, is_writable: false });
    accounts.push(AccountMeta { pubkey: metadata_program_id(), is_signer: false, is_writable: false });
    accounts.push(AccountMeta { pubkey: system_program_id(), is_signer: false, is_writable: false });
    accounts.push(AccountMeta { pubkey: rent_sysvar_id(), is_signer: false, is_writable: false });
    let data = take_loan_ix_discriminator();
    let ix = Instruction { program_id: lending_program_id(), accounts, data };
    proof {
        assert(ix@.accounts =~= spec_take_loan_accounts(
            profile@,
            loan@,
            loan_mint@,
            collateral_mint@,
            collateral_metadata@,
            collateral_edition@,
            escrow@,
            escrow_token_account@,
            borrower_account@,
            borrower_token_account@,
            borrower_collateral_account@,
            borrower@,
        ));
        assert(ix@.data =~= spec_take_loan_data());
    }
    ix
}

/// Ordered account table of the loan-repay instruction.
pub open spec fn spec_repay_loan_accounts(profile: Seq<u8>, loan: Seq<u8>, loan_mint: Seq<u8>, token_vault: Seq<u8>, vault: Seq<u8>, collateral_mint: Seq<u8>, collateral_edition: Seq<u8>, escrow: Seq<u8>, escrow_token_account: Seq<u8>, borrower_account: Seq<u8>, borrower_token_account: Seq<u8>, borrower_collateral_account: Seq<u8>, borrower: Seq<u8>, lender: Seq<u8>, lender_token_account: Seq<u8>) -> Seq<AccountMetaView> {
    seq![
        meta(profile, false, true),
        meta(loan, false, true),
        meta(escrow, false, true),
        meta(escrow_token_account, false, true),
        meta(vault, false, false),
        meta(loan_mint, false, false),
        meta(collateral_mint, false, false),
        meta(collateral_edition, false, false),
        meta(token_vault, false, true),
        meta(borrower_account, false, true),
        meta(borrower_token_account, false, true),
        meta(borrower_collateral_account, false, true),
        meta(lender, false, true),
        meta(lender_token_account, false, true),
        meta(borrower, true, true),
        meta(spec_token_program_id(), false, false),
        meta(spec_metadata_program_id(), false, false),
        meta(spec_system_program_id(), false, false),
    ]
}

/// Binary payload of the loan-repay instruction.
pub open spec fn spec_repay_loan_data(amount: u64) -> Seq<u8> {
    spec_repay_loan_ix_discriminator() + spec_u64_to_le_bytes(amount)
}

/// Builds the loan-repay instruction.
pub fn repay_loan(
    profile: &Address,
    loan: &Address,
    loan_mint: &Address,
    token_vault: &Address,
    vault: &Address,
    collateral_mint: &Address,
    collateral_edition: &Address,
    escrow: &Address,
    escrow_token_account: &Address,
    borrower_account: &Address,
    borrower_token_account: &Address,
    borrower_collateral_account: &Address,
    borrower: &Address,
    lender: &Address,
    lender_token_account: &Address,
    amount: u64,
) -> (r: Instruction)
    ensures
        r@.program_id == spec_lending_program_id(),
        r@.accounts == spec_repay_loan_accounts(
            profile@,
            loan@,
            loan_mint@,
            token_vault@,
            vault@,
            collateral_mint@,
            collateral_edition@,
            escrow@,
            escrow_token_account@,
            borrower_account@,
            borrower_token_account@,
            borrower_collateral_account@,
            borrower@,
            lender@,
            lender_token_account@,
        ),
        r@.data == spec_repay_loan_data(amount),
{
    let mut accounts: Vec<AccountMeta> = Vec::new();
    accounts.push(AccountMeta { pubkey: *profile, is_signer: false, is_writable: true });
    accounts.push(AccountMeta { pubkey: *loan, is_signer: false, is_writable: true });
    accounts.push(AccountMeta { pubkey: *escrow, is_signer: false, is_writable: true });
    accounts.push(AccountMeta { pubkey: *escrow_token_account, is_signer: false, is_writable: true });
    accounts.push(AccountMeta { pubkey: *vault, is_signer: false, is_writable: false });
    accounts.push(AccountMeta { pubkey: *loan_mint, is_signer: false, is_writable: false });
    accounts.push(AccountMeta { pubkey: *collateral_mint, is_signer: false, is_writable: false });
    accounts.push(AccountMeta { pubkey: *collateral_edition, is_signer: false, is_writable: false });
    accounts.push(AccountMeta { pubkey: *token_vault, is_signer: false, is_writable: true });
    accounts.push(AccountMeta { pubkey: *borrower_account, is_signer: false, is_writable: true });
    accounts.push(AccountMeta { pubkey: *borrower_token_account, is_signer: false, is_writable: true });
    accounts.push(AccountMeta { pubkey: *borrower_collateral_account, is_signer: false, is_writable: true });
    accounts.push(AccountMeta { pubkey: *lender, is_signer: false, is_writable: true });
    accounts.push(AccountMeta { pubkey: *lender_token_account, is_signer: false, is_writable: true });
    accounts.push(AccountMeta { pubkey: *borrower, is_signer: true, is_writable: true });
    accounts.push(AccountMeta { pubkey: token_program_id(), is_signer: false, is_writable: false });
    accounts.push(AccountMeta { pubkey: metadata_program_id(), is_signer: false, is_writable: false });
    accounts.push(AccountMeta { pubkey: system_program_id(), is_signer: false, is_writable: false });
    let mut data = repay_loan_ix_discriminator();
    let amount_bytes = u64_to_le_bytes(amount);
    data.extend_from_slice(amount_bytes.as_slice());
    let ix = Instruction { program_id: lending_program_id(), accounts, data };
    proof {
        assert(ix@.accounts =~= spec_repay_loan_accounts(
            profile@,
            loan@,
            loan_mint@,
            token_vault@,
            vault@,
            collateral_mint@,
            collateral_edition@,
            escrow@,
            escrow_token_account@,
            borrower_account@,
            borrower_token_account@,
            borrower_collateral_account@,
            borrower@,
            lender@,
            lender_token_account@,
        ));
        assert(ix@.data =~= spec_repay_loan_data(amount));
    }
    ix
}

/// Ordered account table of the associated-token-account creation
/// instruction, as the associated-token program defines it.
pub open spec fn spec_create_associated_token_account_accounts(
    funding: Seq<u8>,
    wallet: Seq<u8>,
    mint: Seq<u8>,
    token_program: Seq<u8>,
) -> Seq<AccountMetaView> {
    seq![
        meta(funding, true, true),
        meta(
            crate::addresses::spec_associated_token_address_with_program(
                wallet,
                mint,
                token_program,
            ),
            false,
            true,
        ),
        meta(wallet, false, false),
        meta(mint, false, false),
        meta(spec_system_program_id(), false, false),
        meta(token_program, false, false),
    ]
}

/// The associated-token-account creation instruction as a view: the
/// documented account table and the program's one-byte Create payload.
pub open spec fn spec_create_associated_token_account_ix(
    funding: Seq<u8>,
    wallet: Seq<u8>,
    mint: Seq<u8>,
    token_program: Seq<u8>,
) -> InstructionView {
    InstructionView {
        program_id: spec_associated_token_program_id(),
        accounts: spec_create_associated_token_account_accounts(
            funding,
            wallet,
            mint,
            token_program,
        ),
        data: seq![0u8],
    }
}

/// Relies on spl_associated_token_account_client's
/// create_associated_token_account: the returned instruction invokes the
/// associated-token program with its documented account table and the
/// one-byte payload 0 (the program's Create variant). The call does not
/// return in the astronomically unlikely event that the account
/// derivation finds no disambiguation byte.
#[verifier::external_body]
pub(crate) fn create_associated_token_account(
    funding: &Address,
    wallet: &Address,
    mint: &Address,
    token_program: &Address,
) -> (r: Instruction)
    ensures
        r@ == spec_create_associated_token_account_ix(funding@, wallet@, mint@, token_program@),
{
    let ix = spl_associated_token_account_client::instruction::create_associated_token_account(
        &solana_sdk::pubkey::Pubkey::new_from_array(funding.bytes),
        &solana_sdk::pubkey::Pubkey::new_from_array(wallet.bytes),
        &solana_sdk::pubkey::Pubkey::new_from_array(mint.bytes),
        &solana_sdk::pubkey::Pubkey::new_from_array(token_program.bytes),
    );
    let accounts = ix.accounts.iter().map(|a| AccountMeta {
        pubkey: Address { bytes: a.pubkey.to_bytes() },
        is_signer: a.is_signer, is_writable: a.is_writable,
    }).collect();
    Instruction { program_id: Address { bytes: ix.program_id.to_bytes() }, accounts, data: ix.data }
}

} // verus!
