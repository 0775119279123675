//! Fixed-width string codec and credential parsing.

use vstd::prelude::*;
use vstd::utf8::{encode_utf8, decode_utf8, valid_utf8};
use crate::error::{DecodeError, KeypairError};

verus! {

/// Width in bytes of a fixed-width encoded string field.
pub const FIXED_STRING_LEN: usize = 32;

/// `b` with every trailing zero byte removed.
pub open spec fn trim_trailing_zeros(b: Seq<u8>) -> Seq<u8>
    decreases b.len(),
{
    if b.len() > 0 && b.last() == 0u8 {
        trim_trailing_zeros(b.drop_last())
    } else {
        b
    }
}

/// `b` padded on the right with zero bytes up to `width`.
pub open spec fn zero_pad(b: Seq<u8>, width: nat) -> Seq<u8>
    recommends
        b.len() <= width,
{
    b + Seq::new((width - b.len()) as nat, |i: int| 0u8)
}

/// Encodes a string into an array of bytes fixed with 32 length:
/// the string's UTF-8 bytes, left-aligned, zero-padded on the right.
pub fn encode_string(alias: &str) -> (r: Vec<u8>)
    requires
        encode_utf8(alias@).len() <= 32,
    ensures
        r@ == zero_pad(encode_utf8(alias@), 32),
        r@.len() == 32,
{
    let bytes = alias.as_bytes();
    let mut encoded: Vec<u8> = Vec::new();
    let mut i: usize = 0;
    while i < bytes.len()
        invariant
            i <= bytes.len(),
            bytes@ == encode_utf8(alias@),
            bytes@.len() <= 32,
            encoded@ == bytes@.take(i as int),
        decreases bytes.len() - i,
    {
        encoded.push(bytes[i]);
        i = i + 1;
    }
    assert(encoded@ == bytes@);
    while encoded.len() < FIXED_STRING_LEN
        invariant
            bytes@.len() <= encoded@.len() <= 32,
            encoded@.take(bytes@.len() as int) == bytes@,
            forall|j: int| bytes@.len() <= j < encoded@.len() ==> encoded@[j] == 0u8,
        decreases 32 - encoded.len(),
    {
        encoded.push(0u8);
    }
    proof {
        assert(encoded@ =~= zero_pad(encode_utf8(alias@), 32));
    }
    encoded
}

/// Checked fixed-width encoding: None exactly when the string's UTF-8
/// form does not fit the fixed width.
pub fn try_encode_string(alias: &str) -> (r: Option<Vec<u8>>)
    ensures
        match r {
            Some(v) => encode_utf8(alias@).len() <= 32 && v@ == zero_pad(
                encode_utf8(alias@),
                32,
            ),
            None => encode_utf8(alias@).len() > 32,
        },
{
    let byte_len = alias.as_bytes().len();
    if byte_len <= 32 {
        Some(encode_string(alias))
    } else {
        None
    }
}

/// Relies on core::str::from_utf8: it returns Ok exactly on valid UTF-8
/// input, and the returned str holds the decoded characters of the input
/// bytes (its UTF-8 re-encoding is the input).
#[verifier::external_body]
fn utf8_to_str<'a>(data: &'a [u8]) -> (r: Option<&'a str>)
    ensures
        match r {
            Some(s) => valid_utf8(data@) && s@ == decode_utf8(data@),
            None => !valid_utf8(data@),
        },
{
    core::str::from_utf8(data).ok()
}

/// Trimming a sequence without trailing zeros leaves it unchanged.
proof fn lemma_trim_no_trailing_zero(b: Seq<u8>)
    requires
        b.len() > 0 ==> b.last() != 0u8,
    ensures
        trim_trailing_zeros(b) == b,
{
}

/// Trimming removes exactly the zero padding that `zero_pad` added,
/// provided the unpadded bytes do not themselves end in a zero byte.
pub proof fn lemma_trim_zero_pad(b: Seq<u8>, width: nat)
    requires
        b.len() <= width,
        b.len() > 0 ==> b.last() != 0u8,
    ensures
        trim_trailing_zeros(zero_pad(b, width)) == b,
    decreases width - b.len(),
{
    if b.len() == width {
        assert(zero_pad(b, width) =~= b);
        lemma_trim_no_trailing_zero(b);
    } else {
        let padded = zero_pad(b, width);
        assert(padded.len() == width);
        assert(padded.last() == 0u8);
        assert(padded.drop_last() =~= zero_pad(b, (width - 1) as nat));
        lemma_trim_zero_pad(b, (width - 1) as nat);
    }
}

/// The UTF-8 encoding of a non-empty character sequence is non-empty, and
/// ends in a zero byte only when the sequence ends in the NUL character.
pub proof fn lemma_encode_utf8_last(s: Seq<char>)
    requires
        s.len() > 0,
    ensures
        encode_utf8(s).len() > 0,
        s.last() != '\0' ==> encode_utf8(s).last() != 0u8,
    decreases s.len(),
{
    let c = (s[0] as u32);
    vstd::utf8::char_is_scalar(s[0]);
    if s.len() == 1 {
        assert(encode_utf8(s) == vstd::utf8::encode_scalar(c) + encode_utf8(s.drop_first()));
        assert(encode_utf8(s.drop_first()) =~= Seq::<u8>::empty());
        assert(encode_utf8(s) =~= vstd::utf8::encode_scalar(c));
        assert(s.last() == s[0]);
        if s[0] != '\0' {
            assert(c != 0) by {
                vstd::utf8::char_u32_cast(s[0], c);
                vstd::utf8::char_u32_cast('\0', '\0' as u32);
                if c == 0 {
                    assert(s[0] == '\0');
                }
            };
            if vstd::utf8::has_width_1_encoding(c) {
                assert(vstd::utf8::leading_byte_width_1(c) != 0u8) by (bit_vector)
                    requires c != 0 && c < 0x80;
            } else {
                assert((0x80u8 | ((c & 0x3F) as u8)) != 0u8) by (bit_vector);
            }
        }
    } else {
        let rest = s.drop_first();
        lemma_encode_utf8_last(rest);
        assert(encode_utf8(s) == vstd::utf8::encode_scalar(c) + encode_utf8(rest));
        assert(encode_utf8(s).last() == encode_utf8(rest).last());
        assert(rest.last() == s.last());
    }
}

/// Decodes a fixed-width string field: trailing zero padding is removed
/// and the remaining bytes are interpreted as UTF-8.
pub fn decode_string(data: &[u8]) -> (r: Result<String, DecodeError>)
    ensures
        match r {
            Ok(s) => valid_utf8(trim_trailing_zeros(data@)) && s@ == decode_utf8(
                trim_trailing_zeros(data@),
            ),
            Err(e) => e == DecodeError::InvalidEncoding && !valid_utf8(trim_trailing_zeros(data@)),
        },
{
    let mut end: usize = data.len();
    proof {
        assert(data@.take(data@.len() as int) =~= data@);
    }
    while end > 0 && data[end - 1] == 0u8
        invariant
            end <= data.len(),
            trim_trailing_zeros(data@) == trim_trailing_zeros(data@.take(end as int)),
        decreases end,
    {
        proof {
            assert(data@.take(end as int).last() == 0u8);
            assert(data@.take(end as int).drop_last() =~= data@.take(end - 1));
        }
        end = end - 1;
    }
    proof {
        let kept = data@.take(end as int);
        if end > 0 {
            assert(kept.last() == data@[end - 1]);
        }
        lemma_trim_no_trailing_zero(kept);
        assert(trim_trailing_zeros(data@) == kept);
    }
    let kept_bytes: &[u8] = &data[0..end];
    match utf8_to_str(kept_bytes) {
        Some(s) => {
            proof {
                assert(kept_bytes@ =~= data@.take(end as int));
            }
            Ok(s.to_owned())
        },
        None => Err(DecodeError::InvalidEncoding),
    }
}

/// Round trip of the fixed-width string codec: decoding an encoded string
/// returns the original, for every string whose UTF-8 form fits in the
/// fixed width and does not end in a NUL character.
pub fn encode_decode_round_trip(alias: &str) -> (r: String)
    requires
        encode_utf8(alias@).len() <= 32,
        alias@.len() > 0 ==> alias@.last() != '\0',
    ensures
        r@ == alias@,
{
    let encoded = encode_string(alias);
    proof {
        if alias@.len() > 0 {
            lemma_encode_utf8_last(alias@);
        }
        lemma_trim_zero_pad(encode_utf8(alias@), 32);
        broadcast use vstd::utf8::encode_utf8_valid_utf8;
        broadcast use vstd::utf8::encode_utf8_decode_utf8;

        assert(trim_trailing_zeros(encoded@) == encode_utf8(alias@));
        assert(valid_utf8(encode_utf8(alias@)));
    }
    match decode_string(encoded.as_slice()) {
        Ok(s) => s,
        Err(_) => {
            proof {
                broadcast use vstd::utf8::encode_utf8_valid_utf8;

                assert(false);
            }
            vstd::pervasive::unreached()
        },
    }
}

/// The length in bytes of a keypair, to match the underlying Ed25519
/// keypair.
pub const KEYPAIR_LENGTH: usize = 64;

/// Bytes that separate the numbers in a credential file: brackets,
/// commas and whitespace.
pub open spec fn is_keypair_separator(b: u8) -> bool {
    b == 91 || b == 93 || b == 44 || b == 32 || b == 9 || b == 10 || b == 13
}

/// An ASCII decimal digit.
pub open spec fn is_decimal_digit(b: u8) -> bool {
    48 <= b <= 57
}

/// Length of the maximal non-separator prefix of `b`.
pub open spec fn first_token_len(b: Seq<u8>) -> int
    decreases b.len(),
{
    if b.len() == 0 || is_keypair_separator(b[0]) {
        0
    } else {
        1 + first_token_len(b.drop_first())
    }
}

/// The first token is never longer than the sequence.
proof fn lemma_first_token_len_bounds(b: Seq<u8>)
    ensures
        0 <= first_token_len(b) <= b.len(),
    decreases b.len(),
{
    if !(b.len() == 0 || is_keypair_separator(b[0])) {
        lemma_first_token_len_bounds(b.drop_first());
    }
}

/// The maximal non-separator runs of `b`, in order.
pub open spec fn spec_tokens(b: Seq<u8>) -> Seq<Seq<u8>>
    decreases b.len(),
    via spec_tokens_decreases
{
    if b.len() == 0 {
        seq![]
    } else if is_keypair_separator(b[0]) {
        spec_tokens(b.drop_first())
    } else {
        seq![b.take(first_token_len(b))] + spec_tokens(b.skip(first_token_len(b)))
    }
}

#[via_fn]
proof fn spec_tokens_decreases(b: Seq<u8>) {
    if b.len() > 0 && !is_keypair_separator(b[0]) {
        lemma_first_token_len_bounds(b);
        lemma_first_token_len_bounds(b.drop_first());
        assert(first_token_len(b) == 1 + first_token_len(b.drop_first()));
        assert(b.skip(first_token_len(b)).len() < b.len());
    }
}

/// Value of a run of decimal digits, most significant first.
pub open spec fn spec_digits_value(t: Seq<u8>) -> int
    decreases t.len(),
{
    if t.len() == 0 {
        0
    } else {
        spec_digits_value(t.drop_last()) * 10 + (t.last() - 48)
    }
}

/// A token that denotes one byte: non-empty, all decimal digits, value
/// at most 255.
pub open spec fn spec_token_is_u8(t: Seq<u8>) -> bool {
    &&& t.len() > 0
    &&& forall|i: int| 0 <= i < t.len() ==> is_decimal_digit(#[trigger] t[i])
    &&& spec_digits_value(t) <= 255
}

/// A run of digits has a non-negative value.
proof fn lemma_digits_value_nonneg(t: Seq<u8>)
    requires
        forall|i: int| 0 <= i < t.len() ==> is_decimal_digit(#[trigger] t[i]),
    ensures
        spec_digits_value(t) >= 0,
    decreases t.len(),
{
    if t.len() > 0 {
        lemma_digits_value_nonneg(t.drop_last());
    }
}

/// Reading more digits can only grow the value: the value of a prefix
/// never exceeds the value of the whole run.
proof fn lemma_digits_value_monotonic(t: Seq<u8>, k: int)
    requires
        0 <= k <= t.len(),
        forall|i: int| 0 <= i < t.len() ==> is_decimal_digit(#[trigger] t[i]),
    ensures
        spec_digits_value(t) >= spec_digits_value(t.take(k)),
    decreases t.len(),
{
    if k < t.len() {
        let shorter = t.drop_last();
        assert(shorter.take(k) =~= t.take(k));
        lemma_digits_value_monotonic(shorter, k);
        lemma_digits_value_nonneg(shorter);
    } else {
        assert(t.take(k) =~= t);
    }
}

/// A scan that saw `k` non-separator bytes and then the end or a
/// separator has found exactly the first token.
proof fn lemma_first_token_len(b: Seq<u8>, k: int)
    requires
        0 <= k <= b.len(),
        forall|i: int| 0 <= i < k ==> !is_keypair_separator(#[trigger] b[i]),
        k == b.len() || is_keypair_separator(b[k]),
    ensures
        first_token_len(b) == k,
    decreases b.len(),
{
    if k > 0 {
        let rest = b.drop_first();
        assert(forall|i: int| 0 <= i < k - 1 ==> !is_keypair_separator(#[trigger] rest[i]));
        lemma_first_token_len(rest, k - 1);
    }
}

/// Exec test of [`is_keypair_separator`].
fn is_separator_byte(b: u8) -> (r: bool)
    ensures
        r == is_keypair_separator(b),
{
    b == 91 || b == 93 || b == 44 || b == 32 || b == 9 || b == 10 || b == 13
}

/// Parses the contents of a credential file: a bracketed,
/// comma-separated list of decimal byte values. Returns the bytes when
/// every number fits in a byte and exactly the keypair length of them
/// are present; Load when a number is malformed or out of range, and
/// SizeMismatch when the count is wrong.
pub fn parse_keypair(contents: &str) -> (r: Result<Vec<u8>, KeypairError>)
    ensures
        ({
            let toks = spec_tokens(encode_utf8(contents@));
            match r {
                Ok(v) => {
                    &&& toks.len() == 64
                    &&& forall|i: int| 0 <= i < 64 ==> spec_token_is_u8(#[trigger] toks[i])
                    &&& v@.len() == 64
                    &&& forall|i: int|
                        0 <= i < 64 ==> #[trigger] v@[i] == spec_digits_value(toks[i])
                },
                Err(e) => match e {
                    KeypairError::Load => exists|i: int|
                        0 <= i < toks.len() && !spec_token_is_u8(#[trigger] toks[i]),
                    KeypairError::SizeMismatch => toks.len() != 64 && (forall|i: int|
                        0 <= i < toks.len() ==> spec_token_is_u8(#[trigger] toks[i])),
                    _ => false,
                },
            }
        }),
{
    let data = contents.as_bytes();
    let len = data.len();
    let ghost whole = data@;
    let ghost toks = spec_tokens(whole);
    let mut values: Vec<u8> = Vec::new();
    let ghost mut processed: Seq<Seq<u8>> = Seq::empty();
    let mut idx: usize = 0;
    proof {
        assert(whole.skip(0) =~= whole);
        assert(toks =~= processed + spec_tokens(whole.skip(0)));
    }
    while idx < len
        invariant
            idx <= len,
            len == whole.len(),
            whole == encode_utf8(contents@),
            toks == spec_tokens(whole),
            data@ == whole,
            toks =~= processed + spec_tokens(whole.skip(idx as int)),
            processed.len() == values@.len(),
            forall|i: int|
                0 <= i < processed.len() ==> spec_token_is_u8(#[trigger] processed[i]),
            forall|i: int|
                0 <= i < processed.len() ==> #[trigger] values@[i] == spec_digits_value(
                    processed[i],
                ),
        decreases len - idx,
    {
        if is_separator_byte(data[idx]) {
            proof {
                assert(whole.skip(idx as int).drop_first() =~= whole.skip(idx + 1));
            }
            idx = idx + 1;
        } else {
            let start = idx;
            let mut j = idx;
            while j < len && !is_separator_byte(data[j])
                invariant
                    start <= j <= len,
                    len == whole.len(),
                    data@ == whole,
                    forall|i: int|
                        start <= i < j ==> !is_keypair_separator(#[trigger] whole[i]),
                decreases len - j,
            {
                j = j + 1;
            }
            let ghost suffix = whole.skip(start as int);
            let ghost token = whole.subrange(start as int, j as int);
            proof {
                assert(forall|i: int|
                    0 <= i < j - start ==> !is_keypair_separator(#[trigger] suffix[i]));
                lemma_first_token_len(suffix, j - start);
                assert(suffix.take(j - start) =~= token);
                assert(suffix.skip(j - start) =~= whole.skip(j as int));
                assert(spec_tokens(suffix) == seq![token] + spec_tokens(whole.skip(j as int)));
                assert(token.len() > 0);
                assert(toks[processed.len() as int] == token);
                assert(processed.len() < toks.len());
            }
            let mut acc: u32 = 0;
            let mut p = start;
            proof {
                assert(token.take(0) =~= Seq::<u8>::empty());
            }
            while p < j
                invariant
                    start <= p <= j <= len,
                    len == whole.len(),
                    data@ == whole,
                    token == whole.subrange(start as int, j as int),
                    whole == encode_utf8(contents@),
                    toks == spec_tokens(whole),
                    0 <= processed.len() < toks.len(),
                    toks[processed.len() as int] == token,
                    acc <= 255,
                    acc == spec_digits_value(token.take(p - start)),
                    forall|i: int|
                        0 <= i < p - start ==> is_decimal_digit(#[trigger] token[i]),
                decreases j - p,
            {
                let d = data[p];
                proof {
                    assert(token[p - start] == whole[p as int]);
                }
                if d < 48 || d > 57 {
                    proof {
                        assert(!is_decimal_digit(token[p - start]));
                        assert(!spec_token_is_u8(token));
                        assert(0 <= processed.len() < toks.len() && !spec_token_is_u8(
                            toks[processed.len() as int],
                        ));
                    }
                    return Err(KeypairError::Load);
                }
                acc = acc * 10 + (d - 48) as u32;
                proof {
                    assert(token.take(p - start + 1).drop_last() =~= token.take(p - start));
                    assert(token.take(p - start + 1).last() == token[p - start]);
                    assert(acc == spec_digits_value(token.take(p - start + 1)));
                }
                if acc > 255 {
                    proof {
                        if forall|i: int|
                            0 <= i < token.len() ==> is_decimal_digit(#[trigger] token[i]) {
                            lemma_digits_value_monotonic(token, p - start + 1);
                            assert(spec_digits_value(token) > 255);
                            assert(!spec_token_is_u8(token));
                        } else {
                            assert(!spec_token_is_u8(token));
                        }
                        assert(0 <= processed.len() < toks.len() && !spec_token_is_u8(
                            toks[processed.len() as int],
                        ));
                    }
                    return Err(KeypairError::Load);
                }
                p = p + 1;
            }
            proof {
                assert(token.take(j - start) =~= token);
                assert(acc == spec_digits_value(token));
                assert(spec_token_is_u8(token));
            }
            values.push(acc as u8);
            proof {
                processed = processed.push(token);
                assert(toks =~= processed + spec_tokens(whole.skip(j as int)));
            }
            idx = j;
        }
    }
    proof {
        assert(whole.skip(len as int) =~= Seq::<u8>::empty());
        assert(spec_tokens(whole.skip(len as int)) =~= Seq::<Seq<u8>>::empty());
        assert(toks =~= processed);
    }
    if values.len() != KEYPAIR_LENGTH {
        return Err(KeypairError::SizeMismatch);
    }
    Ok(values)
}

} // verus!
