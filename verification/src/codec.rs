//! Byte-level codec for the protocol's account records.
//!
//! Every record is encoded as an 8-byte discriminator identifying its
//! kind, followed by its fields in declared order: little-endian
//! fixed-width integers and fixed-length byte arrays, with no padding.
//! This layout mirrors the external program's on-ledger format; the
//! offsets below are part of that contract.

use vstd::prelude::*;
use vstd::bytes::{spec_u64_to_le_bytes, spec_u64_from_le_bytes, u64_to_le_bytes, u64_from_le_bytes};
use crate::accounts::{
    CollectionLendingProfile, Loan, User, ProfileView, LoanView, UserView,
};
use crate::addresses::Address;
use crate::error::DecodeError;

verus! {

/// Width of the record-kind discriminator.
pub const DISCRIMINATOR_LEN: usize = 8;

/// Encoded size of a CollectionLendingProfile record.
pub const PROFILE_RECORD_LEN: usize = 200;

/// Encoded size of a Loan record.
pub const LOAN_RECORD_LEN: usize = 168;

/// Encoded size of a User record.
pub const USER_RECORD_LEN: usize = 48;

/// Byte offset of the profile field inside an encoded Loan record; the
/// server-side equality filter on loan listings points here.
pub const LOAN_PROFILE_OFFSET: usize = 24;

/// Copies 32 bytes at `offset` out of `data` as an address.
fn read_address(data: &[u8], offset: usize) -> (r: Address)
    requires
        offset + 32 <= data@.len(),
    ensures
        r@ == data@.subrange(offset as int, offset as int + 32),
{
    let len = data.len();
    let mut arr = [0u8; 32];
    let mut i: usize = 0;
    while i < 32
        invariant
            i <= 32,
            len == data@.len(),
            offset + 32 <= data@.len(),
            forall|j: int| 0 <= j < i ==> arr@[j] == data@[offset + j],
        decreases 32 - i,
    {
        arr[i] = data[offset + i];
        i = i + 1;
    }
    proof {
        assert(arr@ =~= data@.subrange(offset as int, offset as int + 32));
    }
    Address { bytes: arr }
}

/// Reads a little-endian u64 at `offset`.
fn read_u64(data: &[u8], offset: usize) -> (r: u64)
    requires
        offset + 8 <= data@.len(),
    ensures
        r == spec_u64_from_le_bytes(data@.subrange(offset as int, offset as int + 8)),
{
    let len = data.len();
    let s = vstd::slice::slice_subrange(data, offset, offset + 8);
    u64_from_le_bytes(s)
}

/// True when the bytes at `offset` equal `pat`.
fn bytes_match(data: &[u8], offset: usize, pat: &Vec<u8>) -> (r: bool)
    requires
        offset + pat@.len() <= data@.len(),
    ensures
        r <==> data@.subrange(offset as int, offset as int + pat@.len() as int) == pat@,
{
    let len = data.len();
    let n = pat.len();
    let mut i: usize = 0;
    while i < n
        invariant
            i <= n,
            n == pat@.len(),
            len == data@.len(),
            offset + n <= data@.len(),
            forall|j: int| 0 <= j < i ==> data@[offset + j] == pat@[j],
        decreases n - i,
    {
        if data[offset + i] != pat[i] {
            proof {
                assert(data@.subrange(offset as int, offset as int + pat@.len() as int)[i as int]
                    != pat@[i as int]);
            }
            return false;
        }
        i = i + 1;
    }
    proof {
        assert(data@.subrange(offset as int, offset as int + pat@.len() as int) =~= pat@);
    }
    true
}

/// Discriminator bytes of a CollectionLendingProfile record.
pub open spec fn spec_profile_discriminator() -> Seq<u8> {
    seq![150u8, 110u8, 227u8, 62u8, 17u8, 253u8, 162u8, 112u8]
}

/// Exec value of [`spec_profile_discriminator`].
pub fn profile_discriminator() -> (r: Vec<u8>)
    ensures
        r@ == spec_profile_discriminator(),
{
    let a: [u8; 8] = [150, 110, 227, 62, 17, 253, 162, 112];
    let v = vstd::slice::slice_to_vec(a.as_slice());
    proof {
        assert(v@ =~= spec_profile_discriminator());
    }
    v
}

/// The encoded bytes of a CollectionLendingProfile record.
pub open spec fn spec_encode_profile(v: ProfileView) -> Seq<u8> {
    spec_profile_discriminator() + v.collection + v.token_mint + v.token_vault + v.vault + v.collection_name + spec_u64_to_le_bytes(v.id) + spec_u64_to_le_bytes(v.interest_rate) + spec_u64_to_le_bytes(v.fee_rate) + spec_u64_to_le_bytes(v.loan_duration)
}

/// The record that an encoded CollectionLendingProfile buffer holds, field by field.
pub open spec fn spec_decode_profile(d: Seq<u8>) -> ProfileView {
    ProfileView {
        collection: d.subrange(8, 40),
        token_mint: d.subrange(40, 72),
        token_vault: d.subrange(72, 104),
        vault: d.subrange(104, 136),
        collection_name: d.subrange(136, 168),
        id: spec_u64_from_le_bytes(d.subrange(168, 176)),
        interest_rate: spec_u64_from_le_bytes(d.subrange(176, 184)),
        fee_rate: spec_u64_from_le_bytes(d.subrange(184, 192)),
        loan_duration: spec_u64_from_le_bytes(d.subrange(192, 200)),
    }
}

/// Encodes a CollectionLendingProfile record into its on-ledger byte form.
pub fn encode_profile(record: &CollectionLendingProfile) -> (r: Vec<u8>)
    requires
        record.wf(),
    ensures
        r@ == spec_encode_profile(record@),
        r@.len() == 200,
{
    let mut out = profile_discriminator();
    out.extend_from_slice(record.collection.bytes.as_slice());
    out.extend_from_slice(record.token_mint.bytes.as_slice());
    out.extend_from_slice(record.token_vault.bytes.as_slice());
    out.extend_from_slice(record.vault.bytes.as_slice());
    out.extend_from_slice(record.collection_name.as_slice());
    let id_bytes = u64_to_le_bytes(record.id);
    out.extend_from_slice(id_bytes.as_slice());
    let interest_rate_bytes = u64_to_le_bytes(record.interest_rate);
    out.extend_from_slice(interest_rate_bytes.as_slice());
    let fee_rate_bytes = u64_to_le_bytes(record.fee_rate);
    out.extend_from_slice(fee_rate_bytes.as_slice());
    let loan_duration_bytes = u64_to_le_bytes(record.loan_duration);
    out.extend_from_slice(loan_duration_bytes.as_slice());
    proof {
        assert(out@ =~= spec_encode_profile(record@));
    }
    out
}

/// Decodes a CollectionLendingProfile record: verifies the discriminator, then reads
/// the fields at their fixed offsets.
pub fn decode_profile(data: &[u8]) -> (r: Result<CollectionLendingProfile, DecodeError>)
    ensures
        match r {
            Ok(record) => data@.len() >= 200 && data@.take(8)
                == spec_profile_discriminator() && record@ == spec_decode_profile(data@) && record.wf(),
            Err(e) => match e {
                DecodeError::Truncated => data@.len() < 200,
                DecodeError::Mismatch => data@.len() >= 8 && data@.take(8)
                    != spec_profile_discriminator(),
                DecodeError::InvalidEncoding => false,
            },
        },
{
    if data.len() < DISCRIMINATOR_LEN {
        return Err(DecodeError::Truncated);
    }
    let disc = profile_discriminator();
    if !bytes_match(data, 0, &disc) {
        proof {
            assert(data@.subrange(0, 8) =~= data@.take(8));
        }
        return Err(DecodeError::Mismatch);
    }
    if data.len() < PROFILE_RECORD_LEN {
        return Err(DecodeError::Truncated);
    }
    let collection = read_address(data, 8);
    let token_mint = read_address(data, 40);
    let token_vault = read_address(data, 72);
    let vault = read_address(data, 104);
    let collection_name = vstd::slice::slice_to_vec(vstd::slice::slice_subrange(data, 136, 168));
    let id = read_u64(data, 168);
    let interest_rate = read_u64(data, 176);
    let fee_rate = read_u64(data, 184);
    let loan_duration = read_u64(data, 192);
    let record = CollectionLendingProfile {
        collection,
        token_mint,
        token_vault,
        vault,
        collection_name,
        id,
        interest_rate,
        fee_rate,
        loan_duration,
    };
    proof {
        assert(data@.subrange(0, 8) =~= data@.take(8));
        assert(record@ == spec_decode_profile(data@));
    }
    Ok(record)
}

/// Codec round trip: decoding an encoded CollectionLendingProfile gives back the
/// original record.
pub proof fn lemma_profile_codec_round_trip(v: ProfileView)
    requires
        v.wf(),
    ensures
        spec_decode_profile(spec_encode_profile(v)) == v,
{
    let e = spec_encode_profile(v);
    vstd::bytes::lemma_auto_spec_u64_to_from_le_bytes();
    assert(e.subrange(8, 40) =~= v.collection);
    assert(e.subrange(40, 72) =~= v.token_mint);
    assert(e.subrange(72, 104) =~= v.token_vault);
    assert(e.subrange(104, 136) =~= v.vault);
    assert(e.subrange(136, 168) =~= v.collection_name);
    assert(e.subrange(168, 176) =~= spec_u64_to_le_bytes(v.id));
    assert(e.subrange(176, 184) =~= spec_u64_to_le_bytes(v.interest_rate));
    assert(e.subrange(184, 192) =~= spec_u64_to_le_bytes(v.fee_rate));
    assert(e.subrange(192, 200) =~= spec_u64_to_le_bytes(v.loan_duration));
}

/// Discriminator bytes of a Loan record.
pub open spec fn spec_loan_discriminator() -> Seq<u8> {
    seq![20u8, 195u8, 70u8, 117u8, 165u8, 227u8, 182u8, 1u8]
}

/// Exec value of [`spec_loan_discriminator`].
pub fn loan_discriminator() -> (r: Vec<u8>)
    ensures
        r@ == spec_loan_discriminator(),
{
    let a: [u8; 8] = [20, 195, 70, 117, 165, 227, 182, 1];
    let v = vstd::slice::slice_to_vec(a.as_slice());
    proof {
        assert(v@ =~= spec_loan_discriminator());
    }
    v
}

/// The encoded bytes of a Loan record.
pub open spec fn spec_encode_loan(v: LoanView) -> Seq<u8> {
    spec_loan_discriminator() + spec_u64_to_le_bytes(v.principal_amount) + spec_u64_to_le_bytes(v.repayment_amount) + v.profile + v.loan_mint + v.lender + v.borrower + spec_u64_to_le_bytes(v.due_timestamp) + spec_u64_to_le_bytes(v.id)
}

/// The record that an encoded Loan buffer holds, field by field.
pub open spec fn spec_decode_loan(d: Seq<u8>) -> LoanView {
    LoanView {
        principal_amount: spec_u64_from_le_bytes(d.subrange(8, 16)),
        repayment_amount: spec_u64_from_le_bytes(d.subrange(16, 24)),
        profile: d.subrange(24, 56),
        loan_mint: d.subrange(56, 88),
        lender: d.subrange(88, 120),
        borrower: d.subrange(120, 152),
        due_timestamp: spec_u64_from_le_bytes(d.subrange(152, 160)),
        id: spec_u64_from_le_bytes(d.subrange(160, 168)),
    }
}

/// Encodes a Loan record into its on-ledger byte form.
pub fn encode_loan(record: &Loan) -> (r: Vec<u8>)
    ensures
        r@ == spec_encode_loan(record@),
        r@.len() == 168,
{
    let mut out = loan_discriminator();
    let principal_amount_bytes = u64_to_le_bytes(record.principal_amount);
    out.extend_from_slice(principal_amount_bytes.as_slice());
    let repayment_amount_bytes = u64_to_le_bytes(record.repayment_amount);
    out.extend_from_slice(repayment_amount_bytes.as_slice());
    out.extend_from_slice(record.profile.bytes.as_slice());
    out.extend_from_slice(record.loan_mint.bytes.as_slice());
    out.extend_from_slice(record.lender.bytes.as_slice());
    out.extend_from_slice(record.borrower.bytes.as_slice());
    let due_timestamp_bytes = u64_to_le_bytes(record.due_timestamp);
    out.extend_from_slice(due_timestamp_bytes.as_slice());
    let id_bytes = u64_to_le_bytes(record.id);
    out.extend_from_slice(id_bytes.as_slice());
    proof {
        assert(out@ =~= spec_encode_loan(record@));
    }
    out
}

/// Decodes a Loan record: verifies the discriminator, then reads
/// the fields at their fixed offsets.
pub fn decode_loan(data: &[u8]) -> (r: Result<Loan, DecodeError>)
    ensures
        match r {
            Ok(record) => data@.len() >= 168 && data@.take(8)
                == spec_loan_discriminator() && record@ == spec_decode_loan(data@),
            Err(e) => match e {
                DecodeError::Truncated => data@.len() < 168,
                DecodeError::Mismatch => data@.len() >= 8 && data@.take(8)
                    != spec_loan_discriminator(),
                DecodeError::InvalidEncoding => false,
            },
        },
{
    if data.len() < DISCRIMINATOR_LEN {
        return Err(DecodeError::Truncated);
    }
    let disc = loan_discriminator();
    if !bytes_match(data, 0, &disc) {
        proof {
            assert(data@.subrange(0, 8) =~= data@.take(8));
        }
        return Err(DecodeError::Mismatch);
    }
    if data.len() < LOAN_RECORD_LEN {
        return Err(DecodeError::Truncated);
    }
    let principal_amount = read_u64(data, 8);
    let repayment_amount = read_u64(data, 16);
    let profile = read_address(data, 24);
    let loan_mint = read_address(data, 56);
    let lender = read_address(data, 88);
    let borrower = read_address(data, 120);
    let due_timestamp = read_u64(data, 152);
    let id = read_u64(data, 160);
    let record = Loan {
        principal_amount,
        repayment_amount,
        profile,
        loan_mint,
        lender,
        borrower,
        due_timestamp,
        id,
    };
    proof {
        assert(data@.subrange(0, 8) =~= data@.take(8));
        assert(record@ == spec_decode_loan(data@));
    }
    Ok(record)
}

/// Codec round trip: decoding an encoded Loan gives back the
/// original record.
pub proof fn lemma_loan_codec_round_trip(v: LoanView)
    requires
        v.wf(),
    ensures
        spec_decode_loan(spec_encode_loan(v)) == v,
{
    let e = spec_encode_loan(v);
    vstd::bytes::lemma_auto_spec_u64_to_from_le_bytes();
    assert(e.subrange(8, 16) =~= spec_u64_to_le_bytes(v.principal_amount));
    assert(e.subrange(16, 24) =~= spec_u64_to_le_bytes(v.repayment_amount));
    assert(e.subrange(24, 56) =~= v.profile);
    assert(e.subrange(56, 88) =~= v.loan_mint);
    assert(e.subrange(88, 120) =~= v.lender);
    assert(e.subrange(120, 152) =~= v.borrower);
    assert(e.subrange(152, 160) =~= spec_u64_to_le_bytes(v.due_timestamp));
    assert(e.subrange(160, 168) =~= spec_u64_to_le_bytes(v.id));
}

/// Discriminator bytes of a User record.
pub open spec fn spec_user_discriminator() -> Seq<u8> {
    seq![159u8, 117u8, 95u8, 227u8, 239u8, 151u8, 58u8, 236u8]
}

/// Exec value of [`spec_user_discriminator`].
pub fn user_discriminator() -> (r: Vec<u8>)
    ensures
        r@ == spec_user_discriminator(),
{
    let a: [u8; 8] = [159, 117, 95, 227, 239, 151, 58, 236];
    let v = vstd::slice::slice_to_vec(a.as_slice());
    proof {
        assert(v@ =~= spec_user_discriminator());
    }
    v
}

/// The encoded bytes of a User record.
pub open spec fn spec_encode_user(v: UserView) -> Seq<u8> {
    spec_user_discriminator() + v.authority + spec_u64_to_le_bytes(v.loans_offered)
}

/// The record that an encoded User buffer holds, field by field.
pub open spec fn spec_decode_user(d: Seq<u8>) -> UserView {
    UserView {
        authority: d.subrange(8, 40),
        loans_offered: spec_u64_from_le_bytes(d.subrange(40, 48)),
    }
}

/// Encodes a User record into its on-ledger byte form.
pub fn encode_user(record: &User) -> (r: Vec<u8>)
    ensures
        r@ == spec_encode_user(record@),
        r@.len() == 48,
{
    let mut out = user_discriminator();
    out.extend_from_slice(record.authority.bytes.as_slice());
    let loans_offered_bytes = u64_to_le_bytes(record.loans_offered);
    out.extend_from_slice(loans_offered_bytes.as_slice());
    proof {
        assert(out@ =~= spec_encode_user(record@));
    }
    out
}

/// Decodes a User record: verifies the discriminator, then reads
/// the fields at their fixed offsets.
pub fn decode_user(data: &[u8]) -> (r: Result<User, DecodeError>)
    ensures
        match r {
            Ok(record) => data@.len() >= 48 && data@.take(8)
                == spec_user_discriminator() && record@ == spec_decode_user(data@),
            Err(e) => match e {
                DecodeError::Truncated => data@.len() < 48,
                DecodeError::Mismatch => data@.len() >= 8 && data@.take(8)
                    != spec_user_discriminator(),
                DecodeError::InvalidEncoding => false,
            },
        },
{
    if data.len() < DISCRIMINATOR_LEN {
        return Err(DecodeError::Truncated);
    }
    let disc = user_discriminator();
    if !bytes_match(data, 0, &disc) {
        proof {
            assert(data@.subrange(0, 8) =~= data@.take(8));
        }
        return Err(DecodeError::Mismatch);
    }
    if data.len() < USER_RECORD_LEN {
        return Err(DecodeError::Truncated);
    }
    let authority = read_address(data, 8);
    let loans_offered = read_u64(data, 40);
    let record = User {
        authority,
        loans_offered,
    };
    proof {
        assert(data@.subrange(0, 8) =~= data@.take(8));
        assert(record@ == spec_decode_user(data@));
    }
    Ok(record)
}

/// Codec round trip: decoding an encoded User gives back the
/// original record.
pub proof fn lemma_user_codec_round_trip(v: UserView)
    requires
        v.wf(),
    ensures
        spec_decode_user(spec_encode_user(v)) == v,
{
    let e = spec_encode_user(v);
    vstd::bytes::lemma_auto_spec_u64_to_from_le_bytes();
    assert(e.subrange(8, 40) =~= v.authority);
    assert(e.subrange(40, 48) =~= spec_u64_to_le_bytes(v.loans_offered));
}

/// The three record discriminators are pairwise distinct, so a buffer
/// decodes under at most one kind.
pub proof fn lemma_discriminators_pairwise_distinct()
    ensures
        spec_profile_discriminator() != spec_loan_discriminator(),
        spec_profile_discriminator() != spec_user_discriminator(),
        spec_loan_discriminator() != spec_user_discriminator(),
{
    assert(spec_profile_discriminator()[0] != spec_loan_discriminator()[0]);
    assert(spec_profile_discriminator()[0] != spec_user_discriminator()[0]);
    assert(spec_loan_discriminator()[0] != spec_user_discriminator()[0]);
}


/// The profile layout has no slack: a buffer of the exact record size
/// whose discriminator matches is precisely the encoding of the record
/// it decodes to.
pub proof fn lemma_profile_encoding_canonical(d: Seq<u8>)
    requires
        d.len() == 200,
        d.take(8) == spec_profile_discriminator(),
    ensures
        spec_encode_profile(spec_decode_profile(d)) == d,
{
    vstd::bytes::lemma_auto_spec_u64_to_from_le_bytes();
    assert(spec_u64_to_le_bytes(spec_u64_from_le_bytes(d.subrange(168, 176))) == d.subrange(
        168,
        176,
    ));
    assert(spec_u64_to_le_bytes(spec_u64_from_le_bytes(d.subrange(176, 184))) == d.subrange(
        176,
        184,
    ));
    assert(spec_u64_to_le_bytes(spec_u64_from_le_bytes(d.subrange(184, 192))) == d.subrange(
        184,
        192,
    ));
    assert(spec_u64_to_le_bytes(spec_u64_from_le_bytes(d.subrange(192, 200))) == d.subrange(
        192,
        200,
    ));
    assert(spec_encode_profile(spec_decode_profile(d)) =~= d);
}

/// The loan layout has no slack, in the same sense.
pub proof fn lemma_loan_encoding_canonical(d: Seq<u8>)
    requires
        d.len() == 168,
        d.take(8) == spec_loan_discriminator(),
    ensures
        spec_encode_loan(spec_decode_loan(d)) == d,
{
    vstd::bytes::lemma_auto_spec_u64_to_from_le_bytes();
    assert(spec_u64_to_le_bytes(spec_u64_from_le_bytes(d.subrange(8, 16))) == d.subrange(8, 16));
    assert(spec_u64_to_le_bytes(spec_u64_from_le_bytes(d.subrange(16, 24))) == d.subrange(16, 24));
    assert(spec_u64_to_le_bytes(spec_u64_from_le_bytes(d.subrange(152, 160))) == d.subrange(
        152,
        160,
    ));
    assert(spec_u64_to_le_bytes(spec_u64_from_le_bytes(d.subrange(160, 168))) == d.subrange(
        160,
        168,
    ));
    assert(spec_encode_loan(spec_decode_loan(d)) =~= d);
}

/// The user layout has no slack, in the same sense.
pub proof fn lemma_user_encoding_canonical(d: Seq<u8>)
    requires
        d.len() == 48,
        d.take(8) == spec_user_discriminator(),
    ensures
        spec_encode_user(spec_decode_user(d)) == d,
{
    vstd::bytes::lemma_auto_spec_u64_to_from_le_bytes();
    assert(spec_u64_to_le_bytes(spec_u64_from_le_bytes(d.subrange(40, 48))) == d.subrange(40, 48));
    assert(spec_encode_user(spec_decode_user(d)) =~= d);
}

/// A byte-range equality filter at the loan layout's profile offset
/// selects exactly the records whose decoded profile field matches.
pub proof fn lemma_memcmp_selects_profile(d: Seq<u8>, p: Seq<u8>)
    requires
        d.len() >= 168,
    ensures
        d.subrange(24, 56) == p <==> spec_decode_loan(d).profile == p,
{
}

/// The profile field of an encoded Loan record sits exactly at the
/// listing filter's byte offset.
pub proof fn lemma_loan_profile_field_offset(v: LoanView)
    requires
        v.wf(),
    ensures
        spec_encode_loan(v).subrange(24, 56) == v.profile,
{
    vstd::bytes::lemma_auto_spec_u64_to_from_le_bytes();
    assert(spec_encode_loan(v).subrange(24, 56) =~= v.profile);
}

} // verus!
