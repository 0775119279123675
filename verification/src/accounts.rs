//! The protocol's account records and their derived addresses.
//!
//! Each record kind has a deterministic program-derived address computed
//! from a domain-separation tag and the entity's natural key.

use vstd::prelude::*;
use vstd::bytes::{spec_u64_to_le_bytes, u64_to_le_bytes};
use crate::addresses::{
    Address, pda_of, pda_opt_of, derived_view, derive_pda, spec_lending_program_id,
    spec_profile_tag, spec_profile_vault_tag,
    spec_vault_authority_tag, spec_loan_tag, spec_escrow_tag, spec_escrow_token_account_tag,
    spec_user_tag, profile_tag, profile_vault_tag, vault_authority_tag, loan_tag, escrow_tag,
    escrow_token_account_tag, user_tag,
};

verus! {

/// Lending terms for one NFT collection paired with one loan-currency mint.
#[derive(Clone, Debug)]
pub struct CollectionLendingProfile {
    /// Mint address of the NFT collection accepted as collateral.
    pub collection: Address,
    /// Mint address of the loan currency.
    pub token_mint: Address,
    /// The profile's token vault address.
    pub token_vault: Address,
    /// The vault-authority address.
    pub vault: Address,
    /// Fixed-width collection name, zero-padded UTF-8 bytes.
    pub collection_name: Vec<u8>,
    /// Distinguishes multiple profiles for one collection/mint pair.
    pub id: u64,
    /// Interest rate in basis points.
    pub interest_rate: u64,
    /// Fee rate in basis points.
    pub fee_rate: u64,
    /// Loan duration in seconds.
    pub loan_duration: u64,
}

impl CollectionLendingProfile {
    /// The fixed-width name field holds exactly its declared width.
    pub open spec fn wf(&self) -> bool {
        self.collection_name@.len() == 32
    }
}

/// A single loan slot: lender-offered, optionally borrower-taken.
#[derive(Clone, Debug)]
pub struct Loan {
    /// Principal amount offered by the lender.
    pub principal_amount: u64,
    /// Amount owed at repayment.
    pub repayment_amount: u64,
    /// Address of the owning CollectionLendingProfile.
    pub profile: Address,
    /// Mint address of the loan currency.
    pub loan_mint: Address,
    /// The lender's wallet address.
    pub lender: Address,
    /// The borrower's wallet address; all zero until the loan is taken.
    pub borrower: Address,
    /// Unix timestamp at which the loan falls due.
    pub due_timestamp: u64,
    /// Sequential id scoped to (profile, lender).
    pub id: u64,
}

/// Per-wallet counter of loans offered, used to pick the next loan id.
#[derive(Clone, Debug)]
pub struct User {
    /// The wallet this account belongs to.
    pub authority: Address,
    /// How many loans the wallet has offered.
    pub loans_offered: u64,
}

/// Mathematical view of a [`CollectionLendingProfile`].
pub struct ProfileView {
    /// Bytes of the collection mint address.
    pub collection: Seq<u8>,
    /// Bytes of the loan-currency mint address.
    pub token_mint: Seq<u8>,
    /// Bytes of the token vault address.
    pub token_vault: Seq<u8>,
    /// Bytes of the vault-authority address.
    pub vault: Seq<u8>,
    /// Fixed-width collection name bytes.
    pub collection_name: Seq<u8>,
    /// Profile id.
    pub id: u64,
    /// Interest rate in basis points.
    pub interest_rate: u64,
    /// Fee rate in basis points.
    pub fee_rate: u64,
    /// Loan duration in seconds.
    pub loan_duration: u64,
}

impl ProfileView {
    /// Every address field is 32 bytes and the name field holds its
    /// declared width.
    pub open spec fn wf(&self) -> bool {
        &&& self.collection.len() == 32
        &&& self.token_mint.len() == 32
        &&& self.token_vault.len() == 32
        &&& self.vault.len() == 32
        &&& self.collection_name.len() == 32
    }
}

impl View for CollectionLendingProfile {
    type V = ProfileView;

    open spec fn view(&self) -> ProfileView {
        ProfileView {
            collection: self.collection@,
            token_mint: self.token_mint@,
            token_vault: self.token_vault@,
            vault: self.vault@,
            collection_name: self.collection_name@,
            id: self.id,
            interest_rate: self.interest_rate,
            fee_rate: self.fee_rate,
            loan_duration: self.loan_duration,
        }
    }
}

/// Mathematical view of a [`Loan`].
pub struct LoanView {
    /// Principal amount.
    pub principal_amount: u64,
    /// Repayment amount.
    pub repayment_amount: u64,
    /// Bytes of the owning profile's address.
    pub profile: Seq<u8>,
    /// Bytes of the loan-currency mint address.
    pub loan_mint: Seq<u8>,
    /// Bytes of the lender's wallet address.
    pub lender: Seq<u8>,
    /// Bytes of the borrower's wallet address.
    pub borrower: Seq<u8>,
    /// Due timestamp.
    pub due_timestamp: u64,
    /// Sequential id.
    pub id: u64,
}

impl LoanView {
    /// Every address field is 32 bytes.
    pub open spec fn wf(&self) -> bool {
        &&& self.profile.len() == 32
        &&& self.loan_mint.len() == 32
        &&& self.lender.len() == 32
        &&& self.borrower.len() == 32
    }
}

impl View for Loan {
    type V = LoanView;

    open spec fn view(&self) -> LoanView {
        LoanView {
            principal_amount: self.principal_amount,
            repayment_amount: self.repayment_amount,
            profile: self.profile@,
            loan_mint: self.loan_mint@,
            lender: self.lender@,
            borrower: self.borrower@,
            due_timestamp: self.due_timestamp,
            id: self.id,
        }
    }
}

/// Mathematical view of a [`User`].
pub struct UserView {
    /// Bytes of the wallet address.
    pub authority: Seq<u8>,
    /// How many loans the wallet has offered.
    pub loans_offered: u64,
}

impl UserView {
    /// The address field is 32 bytes.
    pub open spec fn wf(&self) -> bool {
        self.authority.len() == 32
    }
}

impl View for User {
    type V = UserView;

    open spec fn view(&self) -> UserView {
        UserView { authority: self.authority@, loans_offered: self.loans_offered }
    }
}

/// A fetched record paired with its on-ledger address.
#[derive(Clone, Debug)]
pub struct CollectionLendingProfileAccount {
    /// The decoded record.
    pub state: CollectionLendingProfile,
    /// The address the record was fetched from.
    pub pubkey: Address,
}

/// A fetched loan record paired with its on-ledger address.
#[derive(Clone, Debug)]
pub struct LoanAccount {
    /// The decoded record.
    pub state: Loan,
    /// The address the record was fetched from.
    pub pubkey: Address,
}

/// A fetched user record paired with its on-ledger address.
#[derive(Clone, Debug)]
pub struct UserAccount {
    /// The decoded record.
    pub state: User,
    /// The address the record was fetched from.
    pub pubkey: Address,
}

/// Seed list of a CollectionLendingProfile's address.
pub open spec fn spec_profile_seeds(collection_mint: Seq<u8>, token_mint: Seq<u8>, id: u64) -> Seq<
    Seq<u8>,
> {
    seq![spec_profile_tag(), collection_mint, token_mint, spec_u64_to_le_bytes(id)]
}

/// Seed list of a profile's token vault address.
pub open spec fn spec_profile_vault_seeds(profile: Seq<u8>) -> Seq<Seq<u8>> {
    seq![spec_profile_vault_tag(), profile]
}

/// Seed list of a profile's vault-authority address.
pub open spec fn spec_vault_authority_seeds(profile: Seq<u8>) -> Seq<Seq<u8>> {
    seq![spec_vault_authority_tag(), profile]
}

/// Seed list of a Loan's address.
pub open spec fn spec_loan_seeds(profile: Seq<u8>, lender: Seq<u8>, id: u64) -> Seq<Seq<u8>> {
    seq![spec_loan_tag(), profile, lender, spec_u64_to_le_bytes(id)]
}

/// Seed list of a loan's escrow address.
pub open spec fn spec_escrow_seeds(loan: Seq<u8>) -> Seq<Seq<u8>> {
    seq![spec_escrow_tag(), loan]
}

/// Seed list of an escrow's token account address.
pub open spec fn spec_escrow_token_account_seeds(escrow: Seq<u8>) -> Seq<Seq<u8>> {
    seq![spec_escrow_token_account_tag(), escrow]
}

/// Seed list of a User account's address.
pub open spec fn spec_user_seeds(user: Seq<u8>) -> Seq<Seq<u8>> {
    seq![spec_user_tag(), user]
}

/// The derived address of a CollectionLendingProfile.
pub open spec fn spec_profile_address(collection_mint: Seq<u8>, token_mint: Seq<u8>, id: u64) -> (
    Seq<u8>,
    u8,
) {
    pda_of(spec_profile_seeds(collection_mint, token_mint, id), spec_lending_program_id())
}

/// The derived address of a profile's token vault.
pub open spec fn spec_profile_vault_address(profile: Seq<u8>) -> (Seq<u8>, u8) {
    pda_of(spec_profile_vault_seeds(profile), spec_lending_program_id())
}

/// The derived address of a profile's vault authority.
pub open spec fn spec_vault_authority_address(profile: Seq<u8>) -> (Seq<u8>, u8) {
    pda_of(spec_vault_authority_seeds(profile), spec_lending_program_id())
}

/// The derived address of a Loan.
pub open spec fn spec_loan_address(profile: Seq<u8>, lender: Seq<u8>, id: u64) -> (Seq<u8>, u8) {
    pda_of(spec_loan_seeds(profile, lender, id), spec_lending_program_id())
}

/// The derived address of a loan's escrow.
pub open spec fn spec_escrow_address(loan: Seq<u8>) -> (Seq<u8>, u8) {
    pda_of(spec_escrow_seeds(loan), spec_lending_program_id())
}

/// The derived address of an escrow's token account.
pub open spec fn spec_escrow_token_account_address(escrow: Seq<u8>) -> (Seq<u8>, u8) {
    pda_of(spec_escrow_token_account_seeds(escrow), spec_lending_program_id())
}

/// The derived address of a User account.
pub open spec fn spec_user_address(user: Seq<u8>) -> (Seq<u8>, u8) {
    pda_of(spec_user_seeds(user), spec_lending_program_id())
}

/// The full derivation outcome of a CollectionLendingProfile's address.
pub open spec fn spec_try_profile_address(
    collection_mint: Seq<u8>,
    token_mint: Seq<u8>,
    id: u64,
) -> Option<(Seq<u8>, u8)> {
    pda_opt_of(spec_profile_seeds(collection_mint, token_mint, id), spec_lending_program_id())
}

/// The full derivation outcome of a profile's token vault address.
pub open spec fn spec_try_profile_vault_address(profile: Seq<u8>) -> Option<(Seq<u8>, u8)> {
    pda_opt_of(spec_profile_vault_seeds(profile), spec_lending_program_id())
}

/// The full derivation outcome of a profile's vault-authority address.
pub open spec fn spec_try_vault_authority_address(profile: Seq<u8>) -> Option<(Seq<u8>, u8)> {
    pda_opt_of(spec_vault_authority_seeds(profile), spec_lending_program_id())
}

/// The full derivation outcome of a Loan's address.
pub open spec fn spec_try_loan_address(profile: Seq<u8>, lender: Seq<u8>, id: u64) -> Option<
    (Seq<u8>, u8),
> {
    pda_opt_of(spec_loan_seeds(profile, lender, id), spec_lending_program_id())
}

/// The full derivation outcome of a loan's escrow address.
pub open spec fn spec_try_escrow_address(loan: Seq<u8>) -> Option<(Seq<u8>, u8)> {
    pda_opt_of(spec_escrow_seeds(loan), spec_lending_program_id())
}

/// The full derivation outcome of an escrow's token account address.
pub open spec fn spec_try_escrow_token_account_address(escrow: Seq<u8>) -> Option<(Seq<u8>, u8)> {
    pda_opt_of(spec_escrow_token_account_seeds(escrow), spec_lending_program_id())
}

/// The full derivation outcome of a User account's address.
pub open spec fn spec_try_user_address(user: Seq<u8>) -> Option<(Seq<u8>, u8)> {
    pda_opt_of(spec_user_seeds(user), spec_lending_program_id())
}

impl CollectionLendingProfile {
    /// Derives the address of a CollectionLendingProfile.
    ///
    /// Returns None only in the astronomically unlikely event that the
    /// derivation algorithm finds no valid disambiguation byte.
    pub fn derive_address(collection_mint: &Address, token_mint: &Address, id: u64) -> (r: Option<
        (Address, u8),
    >)
        ensures
            derived_view(r) == spec_try_profile_address(collection_mint@, token_mint@, id),
            r matches Some(p) ==> (p.0@, p.1) == spec_profile_address(
                collection_mint@,
                token_mint@,
                id,
            ),
    {
        let mut seeds: Vec<Vec<u8>> = Vec::new();
        seeds.push(profile_tag());
        seeds.push(collection_mint.to_vec());
        seeds.push(token_mint.to_vec());
        seeds.push(u64_to_le_bytes(id));
        proof {
            assert(seeds.deep_view() =~~= spec_profile_seeds(collection_mint@, token_mint@, id));
        }
        derive_pda(seeds)
    }

    /// Derives the address of a CollectionLendingProfile's token vault.
    pub fn derive_vault_address(profile: &Address) -> (r: Option<(Address, u8)>)
        ensures
            derived_view(r) == spec_try_profile_vault_address(profile@),
            r matches Some(p) ==> (p.0@, p.1) == spec_profile_vault_address(profile@),
    {
        let mut seeds: Vec<Vec<u8>> = Vec::new();
        seeds.push(profile_vault_tag());
        seeds.push(profile.to_vec());
        proof {
            assert(seeds.deep_view() =~~= spec_profile_vault_seeds(profile@));
        }
        derive_pda(seeds)
    }

    /// Derives the address of a CollectionLendingProfile's token vault authority.
    pub fn derive_vault_authority_address(profile: &Address) -> (r: Option<(Address, u8)>)
        ensures
            derived_view(r) == spec_try_vault_authority_address(profile@),
            r matches Some(p) ==> (p.0@, p.1) == spec_vault_authority_address(profile@),
    {
        let mut seeds: Vec<Vec<u8>> = Vec::new();
        seeds.push(vault_authority_tag());
        seeds.push(profile.to_vec());
        proof {
            assert(seeds.deep_view() =~~= spec_vault_authority_seeds(profile@));
        }
        derive_pda(seeds)
    }

    /// Aggregate statistics of the profile; the protocol defines none yet.
    pub fn stats(&self) -> (r: u64)
        ensures
            r == 0u64,
    {
        0u64
    }
}

impl Loan {
    /// Derives the address of a Loan.
    pub fn derive_address(profile: &Address, lender: &Address, id: u64) -> (r: Option<
        (Address, u8),
    >)
        ensures
            derived_view(r) == spec_try_loan_address(profile@, lender@, id),
            r matches Some(p) ==> (p.0@, p.1) == spec_loan_address(profile@, lender@, id),
    {
        let mut seeds: Vec<Vec<u8>> = Vec::new();
        seeds.push(loan_tag());
        seeds.push(profile.to_vec());
        seeds.push(lender.to_vec());
        seeds.push(u64_to_le_bytes(id));
        proof {
            assert(seeds.deep_view() =~~= spec_loan_seeds(profile@, lender@, id));
        }
        derive_pda(seeds)
    }

    /// Derives the address of a Loan's escrow.
    pub fn derive_escrow_address(loan: &Address) -> (r: Option<(Address, u8)>)
        ensures
            derived_view(r) == spec_try_escrow_address(loan@),
            r matches Some(p) ==> (p.0@, p.1) == spec_escrow_address(loan@),
    {
        let mut seeds: Vec<Vec<u8>> = Vec::new();
        seeds.push(escrow_tag());
        seeds.push(loan.to_vec());
        proof {
            assert(seeds.deep_view() =~~= spec_escrow_seeds(loan@));
        }
        derive_pda(seeds)
    }

    /// Derives the address of a Loan's escrow token account.
    pub fn derive_escrow_token_account_address(escrow: &Address) -> (r: Option<(Address, u8)>)
        ensures
            derived_view(r) == spec_try_escrow_token_account_address(escrow@),
            r matches Some(p) ==> (p.0@, p.1) == spec_escrow_token_account_address(escrow@),
    {
        let mut seeds: Vec<Vec<u8>> = Vec::new();
        seeds.push(escrow_token_account_tag());
        seeds.push(escrow.to_vec());
        proof {
            assert(seeds.deep_view() =~~= spec_escrow_token_account_seeds(escrow@));
        }
        derive_pda(seeds)
    }

    /// Remaining duration of the loan; the protocol defines none yet.
    pub fn duration(&self) -> (r: u64)
        ensures
            r == 0u64,
    {
        0u64
    }
}

impl User {
    /// Derives the address of a User account.
    pub fn derive_address(user: &Address) -> (r: Option<(Address, u8)>)
        ensures
            derived_view(r) == spec_try_user_address(user@),
            r matches Some(p) ==> (p.0@, p.1) == spec_user_address(user@),
    {
        let mut seeds: Vec<Vec<u8>> = Vec::new();
        seeds.push(user_tag());
        seeds.push(user.to_vec());
        proof {
            assert(seeds.deep_view() =~~= spec_user_seeds(user@));
        }
        derive_pda(seeds)
    }
}

/// Derivation is deterministic: identical profile seed tuples yield the
/// identical outcome, None included, so two calls of derive_address on
/// equal inputs return the identical (address, disambiguation byte)
/// pair, or both fail.
pub proof fn lemma_profile_address_deterministic(
    c1: Seq<u8>,
    t1: Seq<u8>,
    i1: u64,
    c2: Seq<u8>,
    t2: Seq<u8>,
    i2: u64,
)
    requires
        c1 == c2,
        t1 == t2,
        i1 == i2,
    ensures
        spec_try_profile_address(c1, t1, i1) == spec_try_profile_address(c2, t2, i2),
        spec_profile_address(c1, t1, i1) == spec_profile_address(c2, t2, i2),
{
}

/// Derivation is deterministic: identical loan seed tuples yield the
/// identical outcome, None included.
pub proof fn lemma_loan_address_deterministic(
    p1: Seq<u8>,
    l1: Seq<u8>,
    i1: u64,
    p2: Seq<u8>,
    l2: Seq<u8>,
    i2: u64,
)
    requires
        p1 == p2,
        l1 == l2,
        i1 == i2,
    ensures
        spec_try_loan_address(p1, l1, i1) == spec_try_loan_address(p2, l2, i2),
        spec_loan_address(p1, l1, i1) == spec_loan_address(p2, l2, i2),
{
}

/// Derivation is deterministic: identical wallets yield the identical
/// outcome, None included.
pub proof fn lemma_user_address_deterministic(u1: Seq<u8>, u2: Seq<u8>)
    requires
        u1 == u2,
    ensures
        spec_try_user_address(u1) == spec_try_user_address(u2),
        spec_user_address(u1) == spec_user_address(u2),
{
}

/// The profile seed construction is injective: two profile seed tuples
/// build the same seed list only when they are equal field for field.
/// Distinct tuples therefore collide in the derived address only if the
/// underlying hash collides.
pub proof fn lemma_profile_seeds_injective(
    c1: Seq<u8>,
    t1: Seq<u8>,
    i1: u64,
    c2: Seq<u8>,
    t2: Seq<u8>,
    i2: u64,
)
    requires
        spec_profile_seeds(c1, t1, i1) == spec_profile_seeds(c2, t2, i2),
    ensures
        c1 == c2,
        t1 == t2,
        i1 == i2,
{
    let s1 = spec_profile_seeds(c1, t1, i1);
    let s2 = spec_profile_seeds(c2, t2, i2);
    assert(s1[1] == c1 && s2[1] == c2);
    assert(s1[2] == t1 && s2[2] == t2);
    assert(s1[3] == spec_u64_to_le_bytes(i1) && s2[3] == spec_u64_to_le_bytes(i2));
    vstd::bytes::lemma_auto_spec_u64_to_from_le_bytes();
}

/// The loan seed construction is injective in the same sense.
pub proof fn lemma_loan_seeds_injective(
    p1: Seq<u8>,
    l1: Seq<u8>,
    i1: u64,
    p2: Seq<u8>,
    l2: Seq<u8>,
    i2: u64,
)
    requires
        spec_loan_seeds(p1, l1, i1) == spec_loan_seeds(p2, l2, i2),
    ensures
        p1 == p2,
        l1 == l2,
        i1 == i2,
{
    let s1 = spec_loan_seeds(p1, l1, i1);
    let s2 = spec_loan_seeds(p2, l2, i2);
    assert(s1[1] == p1 && s2[1] == p2);
    assert(s1[2] == l1 && s2[2] == l2);
    assert(s1[3] == spec_u64_to_le_bytes(i1) && s2[3] == spec_u64_to_le_bytes(i2));
    vstd::bytes::lemma_auto_spec_u64_to_from_le_bytes();
}

/// Seed lists of different record kinds never coincide: the domain
/// tag is always the first seed, and the tags differ.
pub proof fn lemma_kind_seeds_disjoint(
    c: Seq<u8>,
    t: Seq<u8>,
    i: u64,
    p: Seq<u8>,
    l: Seq<u8>,
    j: u64,
    u: Seq<u8>,
)
    ensures
        spec_profile_seeds(c, t, i) != spec_loan_seeds(p, l, j),
        spec_profile_seeds(c, t, i) != spec_user_seeds(u),
        spec_loan_seeds(p, l, j) != spec_user_seeds(u),
{
    assert(spec_profile_seeds(c, t, i)[0] == spec_profile_tag());
    assert(spec_loan_seeds(p, l, j)[0] == spec_loan_tag());
    assert(spec_user_seeds(u)[0] == spec_user_tag());
    assert(spec_profile_tag().len() != spec_loan_tag().len());
    assert(spec_profile_tag().len() != spec_user_tag().len());
    assert(spec_loan_tag().len() != spec_user_tag().len());
}

/// The seven domain-separation tags are pairwise distinct (their lengths
/// already differ), so seed lists of different account kinds never
/// coincide: the tag is always the first seed.
pub proof fn lemma_tags_pairwise_distinct()
    ensures
        spec_profile_tag().len() == 26,
        spec_profile_vault_tag().len() == 13,
        spec_vault_authority_tag().len() == 15,
        spec_loan_tag().len() == 4,
        spec_escrow_tag().len() == 11,
        spec_escrow_token_account_tag().len() == 25,
        spec_user_tag().len() == 12,
{
}

} // verus!
