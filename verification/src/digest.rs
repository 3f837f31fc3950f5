//! Integrity of a download: its SHA-256 digest, written in hexadecimal, is
//! held against the digest that a trust service gave.

use vstd::prelude::*;
use crate::text::{concat2, eq_ignore_ascii_case, same_ignoring_ascii_case};

verus! {

/// The SHA-256 digest of a sequence of bytes, as the `sha2` crate computes it.
pub uninterp spec fn sha256(data: Seq<u8>) -> Seq<u8>;

/// `sha2::Sha256::digest`: the SHA-256 digest of `data`. The result is a
/// function of the bytes alone.
#[verifier::external_body]
fn sha256_digest(data: &[u8]) -> (digest: Vec<u8>)
    ensures
        digest@ == sha256(data@),
{
    <sha2::Sha256 as sha2::Digest>::digest(data).to_vec()
}

/// The lower-case hexadecimal digit for a number below sixteen.
pub open spec fn hex_digit(n: int) -> char
    recommends
        0 <= n < 16,
{
    if n < 10 {
        (0x30 + n) as u8 as char
    } else {
        (0x61 + n - 10) as u8 as char
    }
}

/// The bytes of `data` in lower-case hexadecimal: two digits for each byte,
/// the high half first.
pub open spec fn hex_lower(data: Seq<u8>) -> Seq<char> {
    Seq::new(
        2 * data.len(),
        |i: int|
            if i % 2 == 0 {
                hex_digit(data[i / 2] as int / 16)
            } else {
                hex_digit(data[i / 2] as int % 16)
            },
    )
}

/// `hex::encode`: writes each byte as two lower-case hexadecimal digits, the
/// high half first.
#[verifier::external_body]
fn hex_encode(data: &Vec<u8>) -> (text: String)
    ensures
        text@ == hex_lower(data@),
{
    hex::encode(data)
}

/// The message for a digest that is not the expected one.
pub open spec fn mismatch_message(expected_hex: Seq<char>, actual_hex: Seq<char>) -> Seq<char> {
    "SHA-256 mismatch: expected "@ + expected_hex + ", got "@ + actual_hex
}

/// What holding a digest in hexadecimal against the expected one gives: it
/// passes where the two are the same but for the case of letters, and fails
/// with a message that quotes both otherwise.
pub open spec fn digest_check(actual_hex: Seq<char>, expected_hex: Seq<char>) -> Result<
    (),
    Seq<char>,
> {
    if same_ignoring_ascii_case(actual_hex, expected_hex) {
        Ok(())
    } else {
        Err(mismatch_message(expected_hex, actual_hex))
    }
}

/// What verifying downloaded bytes against an expected digest gives.
pub open spec fn verification(data: Seq<u8>, expected_hex: Seq<char>) -> Result<(), Seq<char>> {
    digest_check(hex_lower(sha256(data)), expected_hex)
}

/// The view of a check's outcome.
pub open spec fn check_view(r: Result<(), String>) -> Result<(), Seq<char>> {
    match r {
        Ok(()) => Ok(()),
        Err(e) => Err(e@),
    }
}

/// Holds a digest in hexadecimal against the expected one, ignoring the case
/// of letters.
pub fn check_digest(actual_hex: &str, expected_hex: &str) -> (r: Result<(), String>)
    ensures
        check_view(r) == digest_check(actual_hex@, expected_hex@),
{
    if eq_ignore_ascii_case(actual_hex, expected_hex) {
        Ok(())
    } else {
        let mut message = concat2("SHA-256 mismatch: expected ", expected_hex);
        message.append(", got ");
        message.append(actual_hex);
        Err(message)
    }
}

/// Verifies downloaded bytes against the expected SHA-256 digest, given in
/// hexadecimal in either case.
pub fn verify_sha256(data: &[u8], expected_hex: &str) -> (r: Result<(), String>)
    ensures
        check_view(r) == verification(data@, expected_hex@),
{
    let digest = sha256_digest(data);
    let actual_hex = hex_encode(&digest);
    check_digest(actual_hex.as_str(), expected_hex)
}

/// The bytes of `data` in upper-case hexadecimal.
pub open spec fn hex_upper(data: Seq<u8>) -> Seq<char> {
    hex_lower(data).map_values(
        |c: char|
            if 0x61 <= c as u32 <= 0x7a {
                (c as u32 - 0x20) as u8 as char
            } else {
                c
            },
    )
}

/// Two sequences of bytes with the same hexadecimal form are the same.
pub proof fn lemma_hex_lower_injective(a: Seq<u8>, b: Seq<u8>)
    requires
        hex_lower(a) == hex_lower(b),
    ensures
        a == b,
{
    assert(hex_lower(a).len() == 2 * a.len());
    assert(hex_lower(b).len() == 2 * b.len());
    assert forall|k: int| 0 <= k < a.len() implies a[k] == b[k] by {
        let x = a[k] as int;
        let y = b[k] as int;
        assert(hex_lower(a)[2 * k] == hex_digit(x / 16));
        assert(hex_lower(b)[2 * k] == hex_digit(y / 16));
        assert(hex_lower(a)[2 * k + 1] == hex_digit(x % 16));
        assert(hex_lower(b)[2 * k + 1] == hex_digit(y % 16));
        assert(x / 16 == y / 16);
        assert(x % 16 == y % 16);
    }
    assert(a =~= b);
}

/// In lower-case hexadecimal, sameness up to the case of letters is equality.
proof fn lemma_hex_lower_fold(a: Seq<u8>, b: Seq<u8>)
    requires
        same_ignoring_ascii_case(hex_lower(a), hex_lower(b)),
    ensures
        hex_lower(a) == hex_lower(b),
{
    let ha = hex_lower(a);
    let hb = hex_lower(b);
    assert forall|i: int| 0 <= i < ha.len() implies ha[i] == hb[i] by {
        assert(crate::text::ascii_fold(ha[i]) == crate::text::ascii_fold(hb[i]));
        let x = a[i / 2] as int;
        let y = b[i / 2] as int;
        if i % 2 == 0 {
            assert(ha[i] == hex_digit(x / 16));
            assert(hb[i] == hex_digit(y / 16));
        } else {
            assert(ha[i] == hex_digit(x % 16));
            assert(hb[i] == hex_digit(y % 16));
        }
    }
    assert(ha =~= hb);
}

/// Verification accepts every spelling of the digest of the bytes at hand:
/// an expected digest that is, but for the case of letters, the digest of
/// `data` passes.
pub proof fn law_matching_digest_accepted(data: Seq<u8>, expected_hex: Seq<char>)
    requires
        same_ignoring_ascii_case(expected_hex, hex_lower(sha256(data))),
    ensures
        verification(data, expected_hex) is Ok,
{
}

/// The digest of the bytes at hand passes in lower case and in upper case.
pub proof fn law_both_cases_accepted(data: Seq<u8>)
    ensures
        verification(data, hex_lower(sha256(data))) is Ok,
        verification(data, hex_upper(sha256(data))) is Ok,
{
    let low = hex_lower(sha256(data));
    let up = hex_upper(sha256(data));
    assert forall|i: int| 0 <= i < low.len() implies crate::text::ascii_fold(low[i])
        == crate::text::ascii_fold(up[i]) by {
        let x = sha256(data)[i / 2] as int;
        if i % 2 == 0 {
            assert(low[i] == hex_digit(x / 16));
        } else {
            assert(low[i] == hex_digit(x % 16));
        }
    }
}

/// Verification rejects bytes with another digest: where `other` does not
/// hash to what `data` hashes to, `other` fails against every spelling of the
/// digest of `data`. The outcome is a function of the bytes and the expected
/// digest alone, so it is the same each time.
pub proof fn law_changed_bytes_rejected(data: Seq<u8>, other: Seq<u8>, expected_hex: Seq<char>)
    requires
        sha256(other) != sha256(data),
        same_ignoring_ascii_case(expected_hex, hex_lower(sha256(data))),
    ensures
        verification(other, expected_hex) is Err,
{
    if same_ignoring_ascii_case(hex_lower(sha256(other)), expected_hex) {
        assert(same_ignoring_ascii_case(hex_lower(sha256(other)), hex_lower(sha256(data))));
        lemma_hex_lower_fold(sha256(other), sha256(data));
        lemma_hex_lower_injective(sha256(other), sha256(data));
    }
}

} // verus!
