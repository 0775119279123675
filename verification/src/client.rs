//! Listing pipeline: server-side filters and bulk decoding.
//!
//! The remote store indexes every account of the protocol under one
//! program id, so a listing applies an exact-size filter to select one
//! record kind, and optionally a byte-range equality filter. Fetched raw
//! accounts are decoded record by record; a record that fails to decode
//! is skipped so one malformed account cannot abort a whole listing.

use vstd::prelude::*;
use crate::accounts::{
    CollectionLendingProfile, Loan, User, CollectionLendingProfileAccount, LoanAccount,
    UserAccount, ProfileView, LoanView, UserView,
};
use crate::addresses::Address;
use crate::codec::{
    spec_profile_discriminator, spec_loan_discriminator, spec_user_discriminator,
    spec_decode_profile, spec_decode_loan, spec_decode_user, decode_profile, decode_loan,
    decode_user, PROFILE_RECORD_LEN, LOAN_RECORD_LEN, USER_RECORD_LEN, LOAN_PROFILE_OFFSET,
};

verus! {

/// A server-side filter on a bulk account listing.
#[derive(Clone, Debug)]
pub enum AccountFilter {
    /// Keep accounts whose data is exactly this many bytes.
    DataSize(u64),
    /// Keep accounts whose bytes starting at `offset` equal `bytes`.
    Memcmp { offset: u64, bytes: Vec<u8> },
}

/// Filters selecting exactly the CollectionLendingProfile records.
pub fn profile_list_filters() -> (r: Vec<AccountFilter>)
    ensures
        r@.len() == 1,
        r@[0] matches AccountFilter::DataSize(n) && n == 200u64,
{
    let mut filters: Vec<AccountFilter> = Vec::new();
    filters.push(AccountFilter::DataSize(PROFILE_RECORD_LEN as u64));
    filters
}

/// Filters selecting exactly the User records.
pub fn user_list_filters() -> (r: Vec<AccountFilter>)
    ensures
        r@.len() == 1,
        r@[0] matches AccountFilter::DataSize(n) && n == 48u64,
{
    let mut filters: Vec<AccountFilter> = Vec::new();
    filters.push(AccountFilter::DataSize(USER_RECORD_LEN as u64));
    filters
}

/// Filters selecting the Loan records, restricted to one lending profile
/// when an address is given: the equality filter points at the byte
/// offset where a Loan record stores its profile field.
pub fn loan_list_filters(lending_profile: Option<&Address>) -> (r: Vec<AccountFilter>)
    ensures
        r@[0] matches AccountFilter::DataSize(n) && n == 168u64,
        match lending_profile {
            None => r@.len() == 1,
            Some(p) => r@.len() == 2 && (r@[1] matches AccountFilter::Memcmp { offset, bytes }
                && offset == 24u64 && bytes@ == p@),
        },
{
    let mut filters: Vec<AccountFilter> = Vec::new();
    filters.push(AccountFilter::DataSize(LOAN_RECORD_LEN as u64));
    match lending_profile {
        Some(profile) => {
            filters.push(AccountFilter::Memcmp {
                offset: LOAN_PROFILE_OFFSET as u64,
                bytes: profile.to_vec(),
            });
        },
        None => {},
    }
    filters
}

/// A decoded profile listing restricted to one collection mint: the
/// records whose collection field equals it, in order; with None the
/// listing is kept whole.
pub open spec fn spec_profiles_of_collection(
    profiles: Seq<ProfileAccountView>,
    collection: Option<Seq<u8>>,
) -> Seq<ProfileAccountView>
    decreases profiles.len(),
{
    if profiles.len() == 0 {
        seq![]
    } else {
        let rest = spec_profiles_of_collection(profiles.drop_last(), collection);
        if collection matches Some(c) ==> profiles.last().state.collection == c {
            rest.push(profiles.last())
        } else {
            rest
        }
    }
}

/// Restricts a decoded profile listing to one collection mint when one
/// is given, keeping the order.
pub fn filter_profiles_by_collection(
    profiles: Vec<CollectionLendingProfileAccount>,
    collection: Option<&Address>,
) -> (r: Vec<CollectionLendingProfileAccount>)
    ensures
        r@.map_values(|x: CollectionLendingProfileAccount| x@) == spec_profiles_of_collection(
            profiles@.map_values(|x: CollectionLendingProfileAccount| x@),
            match collection {
                Some(c) => Some(c@),
                None => None,
            },
        ),
        forall|j: int|
            #![trigger r@[j]]
            0 <= j < r@.len() ==> (collection matches Some(c) ==> r@[j].state@.collection == c@),
{
    let ghost orig = profiles@.map_values(|x: CollectionLendingProfileAccount| x@);
    let ghost cview: Option<Seq<u8>> = match collection {
        Some(c) => Some(c@),
        None => None,
    };
    let mut rest = profiles;
    let mut out: Vec<CollectionLendingProfileAccount> = Vec::new();
    let ghost mut k: int = 0;
    proof {
        assert(orig.take(0) =~= Seq::empty());
        assert(rest@.map_values(|x: CollectionLendingProfileAccount| x@) =~= orig.skip(0));
    }
    while rest.len() > 0
        invariant
            0 <= k <= orig.len(),
            rest@.map_values(|x: CollectionLendingProfileAccount| x@) == orig.skip(k),
            out@.map_values(|x: CollectionLendingProfileAccount| x@) == spec_profiles_of_collection(
                orig.take(k),
                cview,
            ),
            cview == (match collection {
                Some(c) => Some(c@),
                None => None,
            }),
            forall|j: int|
                #![trigger out@[j]]
                0 <= j < out@.len() ==> (collection matches Some(c) ==> out@[j].state@.collection
                    == c@),
        decreases rest@.len(),
    {
        let ghost pre_rest = rest@;
        let entry = rest.remove(0);
        proof {
            let to_view = |x: CollectionLendingProfileAccount| x@;
            vstd::seq_lib::lemma_seq_skip_len(orig, k);
            assert(pre_rest.map_values(to_view).len() == pre_rest.len());
            assert(pre_rest.len() == orig.len() - k);
            assert(k < orig.len());
            assert(entry@ == pre_rest.map_values(to_view)[0]);
            assert(pre_rest.map_values(to_view)[0] == orig.skip(k)[0]);
            vstd::seq_lib::lemma_seq_skip_index(orig, k, 0);
            assert(orig.skip(k)[0] == orig[k]);
            assert(rest@ =~= pre_rest.skip(1));
            assert forall|j: int| 0 <= j < rest@.len() implies rest@.map_values(to_view)[j]
                == orig.skip(k + 1)[j] by {
                assert(rest@[j] == pre_rest[j + 1]);
                assert(pre_rest.map_values(to_view)[j + 1] == orig.skip(k)[j + 1]);
                vstd::seq_lib::lemma_seq_skip_index(orig, k, j + 1);
                vstd::seq_lib::lemma_seq_skip_index(orig, k + 1, j);
            }
            assert(rest@.map_values(to_view) =~= orig.skip(k + 1));
            assert(orig.take(k + 1).drop_last() =~= orig.take(k));
            assert(orig.take(k + 1).last() == orig[k]);
        }
        let keep = match collection {
            Some(c) => entry.state.collection == *c,
            None => true,
        };
        if keep {
            out.push(entry);
        }
        proof {
            assert(out@.map_values(|x: CollectionLendingProfileAccount| x@)
                =~= spec_profiles_of_collection(orig.take(k + 1), cview));
            k = k + 1;
        }
    }
    proof {
        assert(orig.take(orig.len() as int) =~= orig);
        assert(k == orig.len());
    }
    out
}

/// True when a buffer decodes as a CollectionLendingProfile record.
pub open spec fn profile_decodable(d: Seq<u8>) -> bool {
    d.len() >= 200 && d.take(8) == spec_profile_discriminator()
}

/// True when a buffer decodes as a Loan record.
pub open spec fn loan_decodable(d: Seq<u8>) -> bool {
    d.len() >= 168 && d.take(8) == spec_loan_discriminator()
}

/// True when a buffer decodes as a User record.
pub open spec fn user_decodable(d: Seq<u8>) -> bool {
    d.len() >= 48 && d.take(8) == spec_user_discriminator()
}

/// Mathematical view of one listed profile record.
pub struct ProfileAccountView {
    /// The decoded record.
    pub state: ProfileView,
    /// The address the record was fetched from.
    pub pubkey: Seq<u8>,
}

impl View for CollectionLendingProfileAccount {
    type V = ProfileAccountView;

    open spec fn view(&self) -> ProfileAccountView {
        ProfileAccountView { state: self.state@, pubkey: self.pubkey@ }
    }
}

/// Mathematical view of one listed loan record.
pub struct LoanAccountView {
    /// The decoded record.
    pub state: LoanView,
    /// The address the record was fetched from.
    pub pubkey: Seq<u8>,
}

impl View for LoanAccount {
    type V = LoanAccountView;

    open spec fn view(&self) -> LoanAccountView {
        LoanAccountView { state: self.state@, pubkey: self.pubkey@ }
    }
}

/// Mathematical view of one listed user record.
pub struct UserAccountView {
    /// The decoded record.
    pub state: UserView,
    /// The address the record was fetched from.
    pub pubkey: Seq<u8>,
}

impl View for UserAccount {
    type V = UserAccountView;

    open spec fn view(&self) -> UserAccountView {
        UserAccountView { state: self.state@, pubkey: self.pubkey@ }
    }
}

/// The profile records that a raw listing decodes to: each decodable
/// buffer in order, paired with its address; undecodable buffers are
/// dropped.
pub open spec fn spec_profile_listing(accounts: Seq<(Seq<u8>, Seq<u8>)>) -> Seq<ProfileAccountView>
    decreases accounts.len(),
{
    if accounts.len() == 0 {
        seq![]
    } else {
        let rest = spec_profile_listing(accounts.drop_last());
        let a = accounts.last();
        if profile_decodable(a.1) {
            rest.push(ProfileAccountView { state: spec_decode_profile(a.1), pubkey: a.0 })
        } else {
            rest
        }
    }
}

/// The loan records that a raw listing decodes to, keeping only loans
/// whose profile field equals the given profile when one is given.
pub open spec fn spec_loan_listing(
    accounts: Seq<(Seq<u8>, Seq<u8>)>,
    lending_profile: Option<Seq<u8>>,
) -> Seq<LoanAccountView>
    decreases accounts.len(),
{
    if accounts.len() == 0 {
        seq![]
    } else {
        let rest = spec_loan_listing(accounts.drop_last(), lending_profile);
        let a = accounts.last();
        if loan_decodable(a.1) && (lending_profile matches Some(p) ==> spec_decode_loan(a.1).profile
            == p) {
            rest.push(LoanAccountView { state: spec_decode_loan(a.1), pubkey: a.0 })
        } else {
            rest
        }
    }
}

/// The user records that a raw listing decodes to.
pub open spec fn spec_user_listing(accounts: Seq<(Seq<u8>, Seq<u8>)>) -> Seq<UserAccountView>
    decreases accounts.len(),
{
    if accounts.len() == 0 {
        seq![]
    } else {
        let rest = spec_user_listing(accounts.drop_last());
        let a = accounts.last();
        if user_decodable(a.1) {
            rest.push(UserAccountView { state: spec_decode_user(a.1), pubkey: a.0 })
        } else {
            rest
        }
    }
}

/// Decodes a fetched listing of CollectionLendingProfile accounts,
/// skipping records that fail to decode.
pub fn decode_lending_profiles(accounts: &Vec<(Address, Vec<u8>)>) -> (r: Vec<
    CollectionLendingProfileAccount,
>)
    ensures
        r@.map_values(|x: CollectionLendingProfileAccount| x@) == spec_profile_listing(
            accounts.deep_view(),
        ),
{
    let mut out: Vec<CollectionLendingProfileAccount> = Vec::new();
    let mut i: usize = 0;
    while i < accounts.len()
        invariant
            i <= accounts@.len(),
            out@.map_values(|x: CollectionLendingProfileAccount| x@) == spec_profile_listing(
                accounts.deep_view().take(i as int),
            ),
        decreases accounts@.len() - i,
    {
        let (pubkey, data) = &accounts[i];
        proof {
            assert(accounts.deep_view().take(i + 1).drop_last() =~= accounts.deep_view().take(
                i as int,
            ));
            assert(accounts.deep_view().take(i + 1).last() == (pubkey@, data@));
        }
        match decode_profile(data.as_slice()) {
            Ok(state) => {
                out.push(CollectionLendingProfileAccount { state, pubkey: *pubkey });
            },
            Err(_) => {},
        }
        proof {
            assert(out@.map_values(|x: CollectionLendingProfileAccount| x@) =~= spec_profile_listing(
                accounts.deep_view().take(i + 1),
            ));
        }
        i = i + 1;
    }
    proof {
        assert(accounts.deep_view().take(accounts@.len() as int) =~= accounts.deep_view());
    }
    out
}

/// Decodes a fetched listing of Loan accounts, skipping records that
/// fail to decode, and keeping only loans of the given lending profile
/// when one is given.
pub fn decode_loans(accounts: &Vec<(Address, Vec<u8>)>, lending_profile: Option<&Address>) -> (r:
    Vec<LoanAccount>)
    ensures
        r@.map_values(|x: LoanAccount| x@) == spec_loan_listing(
            accounts.deep_view(),
            match lending_profile {
                Some(p) => Some(p@),
                None => None,
            },
        ),
        forall|j: int|
            #![trigger r@[j]]
            0 <= j < r@.len() ==> (lending_profile matches Some(p) ==> r@[j].state@.profile == p@),
{
    let ghost profile_view: Option<Seq<u8>> = match lending_profile {
        Some(p) => Some(p@),
        None => None,
    };
    let mut out: Vec<LoanAccount> = Vec::new();
    let mut i: usize = 0;
    while i < accounts.len()
        invariant
            i <= accounts@.len(),
            out@.map_values(|x: LoanAccount| x@) == spec_loan_listing(
                accounts.deep_view().take(i as int),
                profile_view,
            ),
            profile_view == (match lending_profile {
                Some(p) => Some(p@),
                None => None,
            }),
            forall|j: int|
                #![trigger out@[j]]
                0 <= j < out@.len() ==> (lending_profile matches Some(p) ==> out@[j].state@.profile
                    == p@),
        decreases accounts@.len() - i,
    {
        let (pubkey, data) = &accounts[i];
        proof {
            assert(accounts.deep_view().take(i + 1).drop_last() =~= accounts.deep_view().take(
                i as int,
            ));
            assert(accounts.deep_view().take(i + 1).last() == (pubkey@, data@));
        }
        match decode_loan(data.as_slice()) {
            Ok(state) => {
                let keep = match lending_profile {
                    Some(p) => state.profile == *p,
                    None => true,
                };
                if keep {
                    out.push(LoanAccount { state, pubkey: *pubkey });
                }
            },
            Err(_) => {},
        }
        proof {
            assert(out@.map_values(|x: LoanAccount| x@) =~= spec_loan_listing(
                accounts.deep_view().take(i + 1),
                profile_view,
            ));
        }
        i = i + 1;
    }
    proof {
        assert(accounts.deep_view().take(accounts@.len() as int) =~= accounts.deep_view());
    }
    out
}

/// Decodes a fetched listing of User accounts, skipping records that
/// fail to decode.
pub fn decode_users(accounts: &Vec<(Address, Vec<u8>)>) -> (r: Vec<UserAccount>)
    ensures
        r@.map_values(|x: UserAccount| x@) == spec_user_listing(accounts.deep_view()),
{
    let mut out: Vec<UserAccount> = Vec::new();
    let mut i: usize = 0;
    while i < accounts.len()
        invariant
            i <= accounts@.len(),
            out@.map_values(|x: UserAccount| x@) == spec_user_listing(
                accounts.deep_view().take(i as int),
            ),
        decreases accounts@.len() - i,
    {
        let (pubkey, data) = &accounts[i];
        proof {
            assert(accounts.deep_view().take(i + 1).drop_last() =~= accounts.deep_view().take(
                i as int,
            ));
            assert(accounts.deep_view().take(i + 1).last() == (pubkey@, data@));
        }
        match decode_user(data.as_slice()) {
            Ok(state) => {
                out.push(UserAccount { state, pubkey: *pubkey });
            },
            Err(_) => {},
        }
        proof {
            assert(out@.map_values(|x: UserAccount| x@) =~= spec_user_listing(
                accounts.deep_view().take(i + 1),
            ));
        }
        i = i + 1;
    }
    proof {
        assert(accounts.deep_view().take(accounts@.len() as int) =~= accounts.deep_view());
    }
    out
}

} // verus!
