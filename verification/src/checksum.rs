//! Integrity verification: the SHA-256 digest of fetched bytes is compared
//! against the first whitespace-delimited token of a published checksum file
//! (the conventional `<hex-digest>  <filename>` format). A mismatch is fatal;
//! both digests are reported so the discrepancy is auditable.

use crate::text::{
    is_ws, lemma_drop_leading_ws_subrange, drop_leading_ws, str_eq, ws_char,
};
use vstd::prelude::*;
use vstd::string::{StrSliceExecFns, StringExecFns};

verus! {

/// The SHA-256 digest of a byte sequence, as sha2 computes it.
pub uninterp spec fn sha256_of(b: Seq<u8>) -> Seq<u8>;

/// Relies on sha2::Sha256 (through the Digest trait): the digest is a pure
/// function of the input bytes and is 32 bytes long.
#[verifier::external_body]
fn sha256(bytes: &[u8]) -> (d: Vec<u8>)
    ensures
        d@ == sha256_of(bytes@),
        d@.len() == 32,
{
    let digest = <sha2::Sha256 as sha2::Digest>::digest(bytes);
    digest.to_vec()
}

pub open spec fn hex_digit_char(n: u8) -> char {
    seq!['0', '1', '2', '3', '4', '5', '6', '7', '8', '9', 'a', 'b', 'c', 'd', 'e', 'f'][n as int]
}

/// Lowercase hexadecimal rendering of a byte sequence: two digits per byte,
/// most significant nibble first.
pub open spec fn hex_of(b: Seq<u8>) -> Seq<char>
    decreases b.len(),
{
    if b.len() == 0 {
        Seq::empty()
    } else {
        seq![hex_digit_char(b[0] / 16), hex_digit_char(b[0] % 16)] + hex_of(b.drop_first())
    }
}

/// Relies on hex::encode: each byte becomes two lowercase hexadecimal digits,
/// most significant nibble first.
#[verifier::external_body]
fn to_hex(d: &[u8]) -> (s: String)
    ensures
        s@ == hex_of(d@),
{
    hex::encode(d)
}

/// The longest whitespace-free prefix of a string.
pub open spec fn take_until_ws(s: Seq<char>) -> Seq<char>
    decreases s.len(),
{
    if s.len() > 0 && !ws_char(s[0]) {
        seq![s[0]] + take_until_ws(s.drop_first())
    } else {
        Seq::empty()
    }
}

/// The first whitespace-delimited token of a string, or None when the string
/// holds none.
pub open spec fn first_token(s: Seq<char>) -> Option<Seq<char>> {
    let t = take_until_ws(drop_leading_ws(s));
    if t.len() == 0 {
        None
    } else {
        Some(t)
    }
}

proof fn lemma_take_until_ws_subrange(s: Seq<char>, j: int)
    requires
        0 <= j <= s.len(),
        forall|k: int| 0 <= k < j ==> !ws_char(s[k]),
        j == s.len() || ws_char(s[j]),
    ensures
        take_until_ws(s) == s.subrange(0, j),
    decreases j,
{
    if j == 0 {
        assert(s.subrange(0, 0) =~= Seq::<char>::empty());
    } else {
        let rest = s.drop_first();
        lemma_take_until_ws_subrange(rest, j - 1);
        assert(seq![s[0]] + rest.subrange(0, j - 1) =~= s.subrange(0, j));
    }
}

/// Extracts the first whitespace-delimited token, as `first_token` describes.
pub fn first_token_exec(s: &str) -> (r: Option<String>)
    ensures
        match r {
            Some(t) => first_token(s@) == Some(t@),
            None => first_token(s@) is None,
        },
{
    let n = s.unicode_len();
    let mut i: usize = 0;
    while i < n && is_ws(s.get_char(i))
        invariant
            n == s@.len(),
            i <= n,
            forall|k: int| 0 <= k < i ==> ws_char(s@[k]),
        decreases n - i,
    {
        i = i + 1;
    }
    let mut j: usize = i;
    while j < n && !is_ws(s.get_char(j))
        invariant
            n == s@.len(),
            i <= j <= n,
            forall|k: int| i <= k < j ==> !ws_char(s@[k]),
        decreases n - j,
    {
        j = j + 1;
    }
    proof {
        lemma_drop_leading_ws_subrange(s@, i as int);
        let mid = s@.subrange(i as int, n as int);
        lemma_take_until_ws_subrange(mid, j - i);
        assert(mid.subrange(0, j - i) =~= s@.subrange(i as int, j as int));
    }
    if j == i {
        None
    } else {
        Some(s.substring_char(i, j).to_owned())
    }
}

/// The error reported when the computed and published digests differ; both
/// are included so the discrepancy is auditable.
pub open spec fn spec_mismatch_msg(expected: Seq<char>, actual: Seq<char>) -> Seq<char> {
    "Checksum verification failed!\nExpected: "@ + expected + "\nActual:   "@ + actual
}

fn mismatch_msg(expected: &str, actual: &str) -> (m: String)
    ensures
        m@ == spec_mismatch_msg(expected@, actual@),
{
    let mut m = ("Checksum verification failed!\nExpected: ").to_owned();
    m.append(expected);
    m.append("\nActual:   ");
    m.append(actual);
    proof {
        assert(m@ =~= spec_mismatch_msg(expected@, actual@));
    }
    m
}

/// A checksum record accepts the bytes exactly when its first token equals
/// the lowercase hexadecimal SHA-256 digest of the bytes.
pub open spec fn checksum_accepts(bytes: Seq<u8>, text: Seq<char>) -> bool {
    match first_token(text) {
        Some(t) => t == hex_of(sha256_of(bytes)),
        None => false,
    }
}

/// Law: a checksum record whose digest token differs from the SHA-256 digest
/// of the fetched bytes is never accepted, so installation is never reached
/// with mismatched bytes.
pub proof fn lemma_checksum_mismatch_rejected(bytes: Seq<u8>, text: Seq<char>, t: Seq<char>)
    requires
        first_token(text) == Some(t),
        t != hex_of(sha256_of(bytes)),
    ensures
        !checksum_accepts(bytes, text),
{
}

/// Verifies fetched bytes against the text of their checksum record: Ok
/// exactly when the record's first token matches the digest of the bytes,
/// an "Invalid checksum format" error when the record holds no token, and a
/// mismatch error naming both digests otherwise.
pub fn verify_checksum(bytes: &[u8], checksum_text: &str) -> (r: Result<(), String>)
    ensures
        r is Ok <==> checksum_accepts(bytes@, checksum_text@),
        match r {
            Ok(u) => u == (),
            Err(m) => match first_token(checksum_text@) {
                None => m@ == "Invalid checksum format"@,
                Some(t) => m@ == spec_mismatch_msg(t, hex_of(sha256_of(bytes@))),
            },
        },
{
    match first_token_exec(checksum_text) {
        None => Err(("Invalid checksum format").to_owned()),
        Some(expected) => {
            let digest = sha256(bytes);
            let actual = to_hex(digest.as_slice());
            if str_eq(expected.as_str(), actual.as_str()) {
                Ok(())
            } else {
                Err(mismatch_msg(expected.as_str(), actual.as_str()))
            }
        },
    }
}

} // verus!
