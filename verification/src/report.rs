//! Pure computations behind the scan's violation report: display paths with
//! backslashes normalized, the suggested `.gitignore` entry for a venv path,
//! and the deduplicated list of suggestions for a set of findings.

use crate::pyvenv::VenvInfo;
use crate::text::{push_char, str_eq};
use vstd::prelude::*;
use vstd::string::StrSliceExecFns;

verus! {

/// A path with every backslash replaced by a forward slash, for uniform
/// display.
pub open spec fn slash_normalized(p: Seq<char>) -> Seq<char> {
    p.map_values(|c: char| if c == '\\' { '/' } else { c })
}

pub fn normalized_display_path(p: &str) -> (r: String)
    ensures
        r@ == slash_normalized(p@),
{
    let n = p.unicode_len();
    let mut r = String::new();
    let mut i: usize = 0;
    while i < n
        invariant
            n == p@.len(),
            i <= n,
            r@ == slash_normalized(p@).take(i as int),
        decreases n - i,
    {
        let c = p.get_char(i);
        if c == '\\' {
            push_char(&mut r, '/');
        } else {
            push_char(&mut r, c);
        }
        proof {
            assert(r@ =~= slash_normalized(p@).take(i + 1 as int));
        }
        i = i + 1;
    }
    proof {
        assert(slash_normalized(p@).take(n as int) =~= slash_normalized(p@));
    }
    r
}

/// The index of the last occurrence of `c`, or -1 when absent.
pub open spec fn find_last(s: Seq<char>, c: char) -> int
    decreases s.len(),
{
    if s.len() == 0 {
        -1
    } else if s.last() == c {
        s.len() - 1
    } else {
        find_last(s.drop_last(), c)
    }
}

proof fn lemma_find_last_at(s: Seq<char>, c: char, j: int)
    requires
        -1 <= j < s.len(),
        j >= 0 ==> s[j] == c,
        forall|k: int| j < k < s.len() ==> s[k] != c,
    ensures
        find_last(s, c) == j,
    decreases s.len(),
{
    if s.len() == 0 {
    } else if j == s.len() - 1 {
    } else {
        lemma_find_last_at(s.drop_last(), c, j);
    }
}

/// The `.gitignore` entry suggested for one venv configuration path: the
/// name of the directory holding the file, with a trailing slash; None when
/// the path names no such directory.
pub open spec fn spec_ignore_entry(p: Seq<char>) -> Option<Seq<char>> {
    let i = find_last(p, '/');
    if i < 0 {
        None
    } else {
        let dir = p.subrange(0, i);
        let name = dir.subrange(find_last(dir, '/') + 1, dir.len() as int);
        if name.len() == 0 {
            None
        } else {
            Some(name.push('/'))
        }
    }
}

fn rfind_slash(p: &str) -> (j: Option<usize>)
    ensures
        match j {
            Some(k) => find_last(p@, '/') == k && k < p@.len(),
            None => find_last(p@, '/') == -1,
        },
{
    let n = p.unicode_len();
    let mut k: usize = n;
    while k > 0
        invariant
            n == p@.len(),
            k <= n,
            forall|t: int| k <= t < n ==> p@[t] != '/',
        decreases k,
    {
        if p.get_char(k - 1) == '/' {
            proof {
                lemma_find_last_at(p@, '/', k - 1);
            }
            return Some(k - 1);
        }
        k = k - 1;
    }
    proof {
        lemma_find_last_at(p@, '/', -1);
    }
    None
}

/// Computes the suggested `.gitignore` entry for one path, as
/// `spec_ignore_entry` describes.
pub fn ignore_entry(p: &str) -> (r: Option<String>)
    ensures
        match r {
            Some(e) => spec_ignore_entry(p@) == Some(e@),
            None => spec_ignore_entry(p@) is None,
        },
{
    let i = match rfind_slash(p) {
        Some(i) => i,
        None => {
            return None;
        },
    };
    let dir = p.substring_char(0, i);
    let dlen = dir.unicode_len();
    let j = match rfind_slash(dir) {
        Some(j) => j + 1,
        None => 0,
    };
    let name = dir.substring_char(j, dlen);
    if name.unicode_len() == 0 {
        None
    } else {
        let mut e = name.to_owned();
        push_char(&mut e, '/');
        Some(e)
    }
}

/// The deduplicated suggestions for a list of venv paths, in order of first
/// appearance.
pub open spec fn spec_suggestions(paths: Seq<Seq<char>>) -> Seq<Seq<char>>
    decreases paths.len(),
{
    if paths.len() == 0 {
        Seq::empty()
    } else {
        let rest = spec_suggestions(paths.drop_last());
        match spec_ignore_entry(paths.last()) {
            Some(e) => if rest.contains(e) {
                rest
            } else {
                rest.push(e)
            },
            None => rest,
        }
    }
}

fn contains_str(v: &Vec<String>, s: &str) -> (b: bool)
    ensures
        b == v.deep_view().contains(s@),
{
    let mut i: usize = 0;
    while i < v.len()
        invariant
            i <= v.len(),
            forall|k: int| 0 <= k < i ==> v.deep_view()[k] != s@,
        decreases v.len() - i,
    {
        if str_eq(v[i].as_str(), s) {
            assert(v.deep_view()[i as int] == s@);
            return true;
        }
        i = i + 1;
    }
    assert(forall|k: int| 0 <= k < v.deep_view().len() ==> v.deep_view()[k] != s@);
    false
}

/// Collects the suggested `.gitignore` entries for the found venvs, without
/// duplicates, in order of first appearance.
pub fn suggested_ignore_entries(venvs: &Vec<VenvInfo>) -> (r: Vec<String>)
    ensures
        r.deep_view() == spec_suggestions(venvs@.map_values(|v: VenvInfo| v.path@)),
{
    let ghost paths = venvs@.map_values(|v: VenvInfo| v.path@);
    let mut r: Vec<String> = Vec::new();
    let mut i: usize = 0;
    while i < venvs.len()
        invariant
            i <= venvs@.len(),
            paths == venvs@.map_values(|v: VenvInfo| v.path@),
            r.deep_view() == spec_suggestions(paths.take(i as int)),
        decreases venvs@.len() - i,
    {
        proof {
            assert(paths.take(i + 1 as int).drop_last() =~= paths.take(i as int));
            assert(paths.take(i + 1 as int).last() == venvs@[i as int].path@);
        }
        match ignore_entry(venvs[i].path.as_str()) {
            Some(e) => {
                if !contains_str(&r, e.as_str()) {
                    r.push(e);
                    proof {
                        assert(r.deep_view() =~= spec_suggestions(paths.take(i + 1 as int)));
                    }
                }
            },
            None => {},
        }
        i = i + 1;
    }
    proof {
        assert(paths.take(venvs@.len() as int) =~= paths);
    }
    r
}

/// The scan's exit code: 0 when no unignored venv was found, 2 otherwise.
pub fn scan_exit_code(violations: usize) -> (c: i32)
    ensures
        violations == 0 ==> c == 0,
        violations > 0 ==> c == 2,
{
    if violations == 0 {
        0
    } else {
        2
    }
}

} // verus!
