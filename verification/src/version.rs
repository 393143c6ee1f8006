//! Version normalization: a release tag such as "unvenv-v1.4.2" or "v1.4.2"
//! is reduced to the bare dotted version "1.4.2" by stripping every leading
//! occurrence of the tool-specific tag prefix and then every leading 'v'.
//! Versions are compared by string equality only; no ordering is defined.

use crate::text::{starts_with, str_starts_with};
use vstd::prelude::*;
use vstd::string::StrSliceExecFns;

verus! {

/// The string with every leading occurrence of `p` removed.
pub open spec fn strip_all_prefix(s: Seq<char>, p: Seq<char>) -> Seq<char>
    decreases s.len(),
{
    if p.len() > 0 && starts_with(s, p) {
        strip_all_prefix(s.skip(p.len() as int), p)
    } else {
        s
    }
}

/// A normalized version: the tag prefix "unvenv-v" is stripped first, then
/// any remaining leading 'v' characters.
pub open spec fn spec_normalize_version(tag: Seq<char>) -> Seq<char> {
    strip_all_prefix(strip_all_prefix(tag, "unvenv-v"@), "v"@)
}

fn strip_all(s: &str, p: &str) -> (r: String)
    requires
        p@.len() > 0,
    ensures
        r@ == strip_all_prefix(s@, p@),
    decreases s@.len(),
{
    let plen = p.unicode_len();
    let slen = s.unicode_len();
    if str_starts_with(s, p) {
        let rest = s.substring_char(plen, slen);
        proof {
            assert(rest@ =~= s@.skip(plen as int));
        }
        strip_all(rest, p)
    } else {
        s.to_owned()
    }
}

/// Strips the release-tag prefixes from a tag, yielding the bare version.
pub fn normalize_version(tag: &str) -> (v: String)
    ensures
        v@ == spec_normalize_version(tag@),
{
    proof {
        reveal_strlit("unvenv-v");
        reveal_strlit("v");
    }
    let once = strip_all(tag, "unvenv-v");
    strip_all(once.as_str(), "v")
}

proof fn lemma_strip_all_no_prefix(s: Seq<char>, p: Seq<char>)
    requires
        p.len() > 0,
    ensures
        !starts_with(strip_all_prefix(s, p), p),
    decreases s.len(),
{
    if starts_with(s, p) {
        lemma_strip_all_no_prefix(s.skip(p.len() as int), p);
    }
}

/// Law: normalization is idempotent on every tag whose normal form does not
/// itself begin with the tag prefix "unvenv-v". (A tag such as
/// "vunvenv-v1.0.0" normalizes to "unvenv-v1.0.0", which a second pass would
/// strip again; for every other tag the normal form is a fixed point.)
pub proof fn lemma_normalize_version_idempotent(tag: Seq<char>)
    requires
        !starts_with(spec_normalize_version(tag), "unvenv-v"@),
    ensures
        spec_normalize_version(spec_normalize_version(tag)) == spec_normalize_version(tag),
{
    reveal_strlit("unvenv-v");
    reveal_strlit("v");
    let t = spec_normalize_version(tag);
    lemma_strip_all_no_prefix(strip_all_prefix(tag, "unvenv-v"@), "v"@);
    assert(!starts_with(t, "v"@));
    assert(strip_all_prefix(t, "unvenv-v"@) == t);
    assert(strip_all_prefix(t, "v"@) == t);
}

} // verus!
