//! Addresses and deterministic program-derived address computation.
//!
//! An [`Address`] is the 32-byte identifier locating an account on the
//! remote ledger. Protocol accounts live at program-derived addresses:
//! deterministic functions of a domain-separation tag, the entity's
//! natural key, and the protocol's program id.

use vstd::prelude::*;

verus! {

/// A 32-byte account address on the remote ledger.
#[derive(Clone, Copy, Debug)]
pub struct Address {
    pub bytes: [u8; 32],
}

impl View for Address {
    type V = Seq<u8>;

    open spec fn view(&self) -> Seq<u8> {
        self.bytes@
    }
}

impl DeepView for Address {
    type V = Seq<u8>;

    open spec fn deep_view(&self) -> Seq<u8> {
        self.bytes@
    }
}

impl Address {
    /// Wraps a 32-byte array as an address.
    pub fn new(bytes: [u8; 32]) -> (r: Address)
        ensures
            r@ == bytes@,
    {
        Address { bytes }
    }

    /// The address as a byte vector.
    pub fn to_vec(&self) -> (r: Vec<u8>)
        ensures
            r@ == self@,
    {
        vstd::slice::slice_to_vec(self.bytes.as_slice())
    }
}

impl PartialEq for Address {
    fn eq(&self, other: &Self) -> (r: bool) {
        let mut i: usize = 0;
        while i < 32
            invariant
                i <= 32,
                forall|j: int| 0 <= j < i ==> self.bytes@[j] == other.bytes@[j],
            decreases 32 - i,
        {
            if self.bytes[i] != other.bytes[i] {
                return false;
            }
            i = i + 1;
        }
        proof {
            assert(self.bytes@ =~= other.bytes@);
        }
        true
    }
}

impl Eq for Address {
}

impl vstd::std_specs::cmp::PartialEqSpecImpl for Address {
    open spec fn obeys_eq_spec() -> bool {
        true
    }

    open spec fn eq_spec(&self, other: &Self) -> bool {
        self@ == other@
    }
}

/// Byte value of the lending protocol's program id
/// (`2SbxAmEuKkya36EtEmCeUWXBKG6wvHYLpJp76vtQMNc7`).
pub open spec fn spec_lending_program_id() -> Seq<u8> {
    seq![21u8, 106u8, 186u8, 0u8, 229u8, 88u8, 26u8, 224u8, 32u8, 87u8, 126u8, 110u8, 77u8, 67u8, 186u8, 158u8, 48u8, 33u8, 56u8, 159u8, 198u8, 120u8, 125u8, 85u8, 153u8, 98u8, 228u8, 113u8, 0u8, 166u8, 154u8, 24u8]
}

/// Exec value of [`spec_lending_program_id`].
pub fn lending_program_id() -> (r: Address)
    ensures
        r@ == spec_lending_program_id(),
{
    let a: [u8; 32] = [21, 106, 186, 0, 229, 88, 26, 224, 32, 87, 126, 110, 77, 67, 186, 158, 48, 33, 56, 159, 198, 120, 125, 85, 153, 98, 228, 113, 0, 166, 154, 24];
    proof {
        assert(a@ =~= spec_lending_program_id());
    }
    Address { bytes: a }
}

/// The outcome that the ledger's deterministic program-derived-address
/// algorithm assigns to a seed list under a program id: the address and
/// disambiguation byte, or None when no valid disambiguation byte
/// exists. The whole outcome, None included, is a pure function of the
/// arguments alone.
pub uninterp spec fn pda_opt_of(seeds: Seq<Seq<u8>>, program_id: Seq<u8>) -> Option<(Seq<u8>, u8)>;

/// The address and disambiguation byte of a successful derivation.
pub open spec fn pda_of(seeds: Seq<Seq<u8>>, program_id: Seq<u8>) -> (Seq<u8>, u8)
    recommends
        pda_opt_of(seeds, program_id) is Some,
{
    match pda_opt_of(seeds, program_id) {
        Some(p) => p,
        None => (Seq::empty(), 0u8),
    }
}

/// A derivation result as the pair of address bytes and bump it holds.
pub open spec fn derived_view(r: Option<(Address, u8)>) -> Option<(Seq<u8>, u8)> {
    match r {
        Some(p) => Some((p.0@, p.1)),
        None => None,
    }
}

/// Relies on solana_sdk's Pubkey::try_find_program_address: its whole
/// outcome is a pure function of the seeds and program id, computed by
/// the ledger's standard derivation algorithm; None comes only in the
/// astronomically unlikely event that no valid disambiguation byte
/// exists (or when a seed exceeds the algorithm's length limits).
#[verifier::external_body]
fn try_find_pda(seeds: &Vec<Vec<u8>>, program_id: &Address) -> (r: Option<(Address, u8)>)
    ensures
        derived_view(r) == pda_opt_of(seeds.deep_view(), program_id@),
{
    let refs: Vec<&[u8]> = seeds.iter().map(|s| s.as_slice()).collect();
    let pk = solana_sdk::pubkey::Pubkey::new_from_array(program_id.bytes);
    solana_sdk::pubkey::Pubkey::try_find_program_address(&refs, &pk)
        .map(|(a, b)| (Address { bytes: a.to_bytes() }, b))
}

/// Derives the program-derived address for a seed list under the lending
/// protocol's program id.
pub fn derive_pda(seeds: Vec<Vec<u8>>) -> (r: Option<(Address, u8)>)
    ensures
        derived_view(r) == pda_opt_of(seeds.deep_view(), spec_lending_program_id()),
        r matches Some(p) ==> (p.0@, p.1) == pda_of(seeds.deep_view(), spec_lending_program_id()),
{
    try_find_pda(&seeds, &lending_program_id())
}

/// Seed bytes of the domain tag of a CollectionLendingProfile (`COLLECTION_LENDING_PROFILE`).
pub open spec fn spec_profile_tag() -> Seq<u8> {
    seq![67u8, 79u8, 76u8, 76u8, 69u8, 67u8, 84u8, 73u8, 79u8, 78u8, 95u8, 76u8, 69u8, 78u8, 68u8, 73u8, 78u8, 71u8, 95u8, 80u8, 82u8, 79u8, 70u8, 73u8, 76u8, 69u8]
}

/// Exec value of [`spec_profile_tag`].
pub fn profile_tag() -> (r: Vec<u8>)
    ensures
        r@ == spec_profile_tag(),
{
    let a: [u8; 26] = [67, 79, 76, 76, 69, 67, 84, 73, 79, 78, 95, 76, 69, 78, 68, 73, 78, 71, 95, 80, 82, 79, 70, 73, 76, 69];
    let v = vstd::slice::slice_to_vec(a.as_slice());
    proof {
        assert(v@ =~= spec_profile_tag());
    }
    v
}

/// Seed bytes of the domain tag of a profile's token vault (`PROFILE_VAULT`).
pub open spec fn spec_profile_vault_tag() -> Seq<u8> {
    seq![80u8, 82u8, 79u8, 70u8, 73u8, 76u8, 69u8, 95u8, 86u8, 65u8, 85u8, 76u8, 84u8]
}

/// Exec value of [`spec_profile_vault_tag`].
pub fn profile_vault_tag() -> (r: Vec<u8>)
    ensures
        r@ == spec_profile_vault_tag(),
{
    let a: [u8; 13] = [80, 82, 79, 70, 73, 76, 69, 95, 86, 65, 85, 76, 84];
    let v = vstd::slice::slice_to_vec(a.as_slice());
    proof {
        assert(v@ =~= spec_profile_vault_tag());
    }
    v
}

/// Seed bytes of the domain tag of a profile's vault authority (`VAULT_AUTHORITY`).
pub open spec fn spec_vault_authority_tag() -> Seq<u8> {
    seq![86u8, 65u8, 85u8, 76u8, 84u8, 95u8, 65u8, 85u8, 84u8, 72u8, 79u8, 82u8, 73u8, 84u8, 89u8]
}

/// Exec value of [`spec_vault_authority_tag`].
pub fn vault_authority_tag() -> (r: Vec<u8>)
    ensures
        r@ == spec_vault_authority_tag(),
{
    let a: [u8; 15] = [86, 65, 85, 76, 84, 95, 65, 85, 84, 72, 79, 82, 73, 84, 89];
    let v = vstd::slice::slice_to_vec(a.as_slice());
    proof {
        assert(v@ =~= spec_vault_authority_tag());
    }
    v
}

/// Seed bytes of the domain tag of a Loan (`LOAN`).
pub open spec fn spec_loan_tag() -> Seq<u8> {
    seq![76u8, 79u8, 65u8, 78u8]
}

/// Exec value of [`spec_loan_tag`].
pub fn loan_tag() -> (r: Vec<u8>)
    ensures
        r@ == spec_loan_tag(),
{
    let a: [u8; 4] = [76, 79, 65, 78];
    let v = vstd::slice::slice_to_vec(a.as_slice());
    proof {
        assert(v@ =~= spec_loan_tag());
    }
    v
}

/// Seed bytes of the domain tag of a loan's escrow (`LOAN_ESCROW`).
pub open spec fn spec_escrow_tag() -> Seq<u8> {
    seq![76u8, 79u8, 65u8, 78u8, 95u8, 69u8, 83u8, 67u8, 82u8, 79u8, 87u8]
}

/// Exec value of [`spec_escrow_tag`].
pub fn escrow_tag() -> (r: Vec<u8>)
    ensures
        r@ == spec_escrow_tag(),
{
    let a: [u8; 11] = [76, 79, 65, 78, 95, 69, 83, 67, 82, 79, 87];
    let v = vstd::slice::slice_to_vec(a.as_slice());
    proof {
        assert(v@ =~= spec_escrow_tag());
    }
    v
}

/// Seed bytes of the domain tag of an escrow's token account (`LOAN_ESCROW_TOKEN_ACCOUNT`).
pub open spec fn spec_escrow_token_account_tag() -> Seq<u8> {
    seq![76u8, 79u8, 65u8, 78u8, 95u8, 69u8, 83u8, 67u8, 82u8, 79u8, 87u8, 95u8, 84u8, 79u8, 75u8, 69u8, 78u8, 95u8, 65u8, 67u8, 67u8, 79u8, 85u8, 78u8, 84u8]
}

/// Exec value of [`spec_escrow_token_account_tag`].
pub fn escrow_token_account_tag() -> (r: Vec<u8>)
    ensures
        r@ == spec_escrow_token_account_tag(),
{
    let a: [u8; 25] = [76, 79, 65, 78, 95, 69, 83, 67, 82, 79, 87, 95, 84, 79, 75, 69, 78, 95, 65, 67, 67, 79, 85, 78, 84];
    let v = vstd::slice::slice_to_vec(a.as_slice());
    proof {
        assert(v@ =~= spec_escrow_token_account_tag());
    }
    v
}

/// Seed bytes of the domain tag of a User account (`USER_ACCOUNT`).
pub open spec fn spec_user_tag() -> Seq<u8> {
    seq![85u8, 83u8, 69u8, 82u8, 95u8, 65u8, 67u8, 67u8, 79u8, 85u8, 78u8, 84u8]
}

/// Exec value of [`spec_user_tag`].
pub fn user_tag() -> (r: Vec<u8>)
    ensures
        r@ == spec_user_tag(),
{
    let a: [u8; 12] = [85, 83, 69, 82, 95, 65, 67, 67, 79, 85, 78, 84];
    let v = vstd::slice::slice_to_vec(a.as_slice());
    proof {
        assert(v@ =~= spec_user_tag());
    }
    v
}

/// Address bytes of the system program (`11111111111111111111111111111111`).
pub open spec fn spec_system_program_id() -> Seq<u8> {
    seq![0u8, 0u8, 0u8, 0u8, 0u8, 0u8, 0u8, 0u8, 0u8, 0u8, 0u8, 0u8, 0u8, 0u8, 0u8, 0u8, 0u8, 0u8, 0u8, 0u8, 0u8, 0u8, 0u8, 0u8, 0u8, 0u8, 0u8, 0u8, 0u8, 0u8, 0u8, 0u8]
}

/// Address bytes of the token program (`TokenkegQfeZyiNwAJbNbGKPFXCWuBvf9Ss623VQ5DA`).
pub open spec fn spec_token_program_id() -> Seq<u8> {
    seq![6u8, 221u8, 246u8, 225u8, 215u8, 101u8, 161u8, 147u8, 217u8, 203u8, 225u8, 70u8, 206u8, 235u8, 121u8, 172u8, 28u8, 180u8, 133u8, 237u8, 95u8, 91u8, 55u8, 145u8, 58u8, 140u8, 245u8, 133u8, 126u8, 255u8, 0u8, 169u8]
}

/// Address bytes of the associated token account program (`ATokenGPvbdGVxr1b2hvZbsiqW5xWH25efTNsLJA8knL`).
pub open spec fn spec_associated_token_program_id() -> Seq<u8> {
    seq![140u8, 151u8, 37u8, 143u8, 78u8, 36u8, 137u8, 241u8, 187u8, 61u8, 16u8, 41u8, 20u8, 142u8, 13u8, 131u8, 11u8, 90u8, 19u8, 153u8, 218u8, 255u8, 16u8, 132u8, 4u8, 142u8, 123u8, 216u8, 219u8, 233u8, 248u8, 89u8]
}

/// Address bytes of the rent sysvar (`SysvarRent111111111111111111111111111111111`).
pub open spec fn spec_rent_sysvar_id() -> Seq<u8> {
    seq![6u8, 167u8, 213u8, 23u8, 25u8, 44u8, 92u8, 81u8, 33u8, 140u8, 201u8, 76u8, 61u8, 74u8, 241u8, 127u8, 88u8, 218u8, 238u8, 8u8, 155u8, 161u8, 253u8, 68u8, 227u8, 219u8, 217u8, 138u8, 0u8, 0u8, 0u8, 0u8]
}

/// Address bytes of the token metadata program (`metaqbxxUerdq28cj1RbAWkYQm3ybzjb6a8bt518x1s`).
pub open spec fn spec_metadata_program_id() -> Seq<u8> {
    seq![11u8, 112u8, 101u8, 177u8, 227u8, 209u8, 124u8, 69u8, 56u8, 157u8, 82u8, 127u8, 107u8, 4u8, 195u8, 205u8, 88u8, 184u8, 108u8, 115u8, 26u8, 160u8, 253u8, 181u8, 73u8, 182u8, 209u8, 188u8, 3u8, 248u8, 41u8, 70u8]
}

/// Exec value of [`spec_system_program_id`].
pub fn system_program_id() -> (r: Address)
    ensures
        r@ == spec_system_program_id(),
{
    let a: [u8; 32] = [0, 0, 0, 0, 0, 0, 0, 0, 0, 0, 0, 0, 0, 0, 0, 0, 0, 0, 0, 0, 0, 0, 0, 0, 0, 0, 0, 0, 0, 0, 0, 0];
    proof {
        assert(a@ =~= spec_system_program_id());
    }
    Address { bytes: a }
}

/// Exec value of [`spec_token_program_id`].
pub fn token_program_id() -> (r: Address)
    ensures
        r@ == spec_token_program_id(),
{
    let a: [u8; 32] = [6, 221, 246, 225, 215, 101, 161, 147, 217, 203, 225, 70, 206, 235, 121, 172, 28, 180, 133, 237, 95, 91, 55, 145, 58, 140, 245, 133, 126, 255, 0, 169];
    proof {
        assert(a@ =~= spec_token_program_id());
    }
    Address { bytes: a }
}

/// Exec value of [`spec_associated_token_program_id`].
pub fn associated_token_program_id() -> (r: Address)
    ensures
        r@ == spec_associated_token_program_id(),
{
    let a: [u8; 32] = [140, 151, 37, 143, 78, 36, 137, 241, 187, 61, 16, 41, 20, 142, 13, 131, 11, 90, 19, 153, 218, 255, 16, 132, 4, 142, 123, 216, 219, 233, 248, 89];
    proof {
        assert(a@ =~= spec_associated_token_program_id());
    }
    Address { bytes: a }
}

/// Exec value of [`spec_rent_sysvar_id`].
pub fn rent_sysvar_id() -> (r: Address)
    ensures
        r@ == spec_rent_sysvar_id(),
{
    let a: [u8; 32] = [6, 167, 213, 23, 25, 44, 92, 81, 33, 140, 201, 76, 61, 74, 241, 127, 88, 218, 238, 8, 155, 161, 253, 68, 227, 219, 217, 138, 0, 0, 0, 0];
    proof {
        assert(a@ =~= spec_rent_sysvar_id());
    }
    Address { bytes: a }
}

/// Exec value of [`spec_metadata_program_id`].
pub fn metadata_program_id() -> (r: Address)
    ensures
        r@ == spec_metadata_program_id(),
{
    let a: [u8; 32] = [11, 112, 101, 177, 227, 209, 124, 69, 56, 157, 82, 127, 107, 4, 195, 205, 88, 184, 108, 115, 26, 160, 253, 181, 73, 182, 209, 188, 3, 248, 41, 70];
    proof {
        assert(a@ =~= spec_metadata_program_id());
    }
    Address { bytes: a }
}

/// Seed bytes of a token-metadata PDA (`metadata`).
pub open spec fn spec_metadata_seed() -> Seq<u8> {
    seq![109u8, 101u8, 116u8, 97u8, 100u8, 97u8, 116u8, 97u8]
}

/// Seed bytes of a master-edition PDA (`edition`).
pub open spec fn spec_edition_seed() -> Seq<u8> {
    seq![101u8, 100u8, 105u8, 116u8, 105u8, 111u8, 110u8]
}

/// The metadata PDA of a mint under the token metadata program.
pub open spec fn spec_metadata_account(mint: Seq<u8>) -> (Seq<u8>, u8) {
    pda_of(
        seq![spec_metadata_seed(), spec_metadata_program_id(), mint],
        spec_metadata_program_id(),
    )
}

/// The master-edition PDA of a mint under the token metadata program.
pub open spec fn spec_master_edition_account(mint: Seq<u8>) -> (Seq<u8>, u8) {
    pda_of(
        seq![spec_metadata_seed(), spec_metadata_program_id(), mint, spec_edition_seed()],
        spec_metadata_program_id(),
    )
}

/// The associated token account of a wallet for a mint under a given
/// token program.
pub open spec fn spec_associated_token_address_with_program(
    wallet: Seq<u8>,
    mint: Seq<u8>,
    token_program: Seq<u8>,
) -> Seq<u8> {
    pda_of(seq![wallet, token_program, mint], spec_associated_token_program_id()).0
}

/// The associated token account of a wallet for a mint, under the
/// standard token program.
pub open spec fn spec_associated_token_address(wallet: Seq<u8>, mint: Seq<u8>) -> Seq<u8> {
    spec_associated_token_address_with_program(wallet, mint, spec_token_program_id())
}

/// Relies on mpl_token_metadata's Metadata::find_pda: it derives the
/// mint's metadata PDA with the seeds (`metadata`, program id, mint)
/// under the token metadata program id. The call does not return in the
/// astronomically unlikely event that no disambiguation byte exists.
#[verifier::external_body]
pub(crate) fn find_metadata_account(mint: &Address) -> (r: (Address, u8))
    ensures
        Some((r.0@, r.1)) == pda_opt_of(
            seq![spec_metadata_seed(), spec_metadata_program_id(), mint@],
            spec_metadata_program_id(),
        ),
        (r.0@, r.1) == spec_metadata_account(mint@),
{
    let pk = solana_sdk::pubkey::Pubkey::new_from_array(mint.bytes);
    let (a, b) = mpl_token_metadata::accounts::Metadata::find_pda(&pk);
    (Address { bytes: a.to_bytes() }, b)
}

/// Relies on mpl_token_metadata's MasterEdition::find_pda: it derives
/// the mint's master-edition PDA with the seeds (`metadata`, program id,
/// mint, `edition`) under the token metadata program id. The call does
/// not return in the astronomically unlikely event that no
/// disambiguation byte exists.
#[verifier::external_body]
pub(crate) fn find_master_edition_account(mint: &Address) -> (r: (Address, u8))
    ensures
        Some((r.0@, r.1)) == pda_opt_of(
            seq![spec_metadata_seed(), spec_metadata_program_id(), mint@, spec_edition_seed()],
            spec_metadata_program_id(),
        ),
        (r.0@, r.1) == spec_master_edition_account(mint@),
{
    let pk = solana_sdk::pubkey::Pubkey::new_from_array(mint.bytes);
    let (a, b) = mpl_token_metadata::accounts::MasterEdition::find_pda(&pk);
    (Address { bytes: a.to_bytes() }, b)
}

/// Relies on spl_associated_token_account_client's
/// get_associated_token_address: it derives the wallet's associated
/// token account with the seeds (wallet, token program, mint) under the
/// associated-token program id. The call does not return in the
/// astronomically unlikely event that no disambiguation byte exists.
#[verifier::external_body]
pub(crate) fn get_associated_token_address(wallet: &Address, mint: &Address) -> (r: Address)
    ensures
        r@ == spec_associated_token_address(wallet@, mint@),
{
    let w = solana_sdk::pubkey::Pubkey::new_from_array(wallet.bytes);
    let m = solana_sdk::pubkey::Pubkey::new_from_array(mint.bytes);
    let a = spl_associated_token_account_client::address::get_associated_token_address(&w, &m);
    Address { bytes: a.to_bytes() }
}

} // verus!
