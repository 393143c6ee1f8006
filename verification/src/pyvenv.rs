//! Parsing of `pyvenv.cfg` files found by the working-tree scan: each line of
//! the form `key = value` is collected (the last occurrence of a key wins),
//! blank lines and `#` comments are skipped, and the fields of interest are
//! extracted into a `VenvInfo`.

use crate::text::{opt_view, str_eq, trim, trim_ws};
use vstd::prelude::*;
use vstd::string::StrSliceExecFns;

verus! {

/// Information extracted from one unignored `pyvenv.cfg` file: its path
/// relative to the scanned directory and the configuration fields of
/// interest, each absent when the file does not set it.
#[derive(Debug)]
pub struct VenvInfo {
    pub path: String,
    pub home: Option<String>,
    pub version: Option<String>,
    pub include_system_site_packages: Option<String>,
}

/// The index of the first occurrence of `c`, or the length when absent.
pub open spec fn find_char(s: Seq<char>, c: char) -> nat
    decreases s.len(),
{
    if s.len() == 0 {
        0
    } else if s[0] == c {
        0
    } else {
        1 + find_char(s.drop_first(), c)
    }
}

proof fn lemma_find_char_at(s: Seq<char>, c: char, i: int)
    requires
        0 <= i <= s.len(),
        forall|k: int| 0 <= k < i ==> s[k] != c,
        i == s.len() || s[i] == c,
    ensures
        find_char(s, c) == i,
    decreases i,
{
    if i == 0 {
    } else {
        lemma_find_char_at(s.drop_first(), c, i - 1);
    }
}

/// A line with one trailing carriage return removed, as `str::lines` leaves
/// a line that a "\r\n" terminated.
pub open spec fn chomp_cr(l: Seq<char>) -> Seq<char> {
    if l.len() > 0 && l.last() == '\r' {
        l.drop_last()
    } else {
        l
    }
}

/// The lines of a text, split at each newline, each stripped of one carriage
/// return before the newline; a trailing newline ends the last line rather
/// than opening an empty one.
pub open spec fn split_lines(s: Seq<char>) -> Seq<Seq<char>>
    decreases s.len(),
{
    if s.len() == 0 {
        Seq::empty()
    } else {
        let i = find_char(s, '\n');
        if i < s.len() {
            seq![chomp_cr(s.subrange(0, i as int))] + split_lines(
                s.subrange(i + 1 as int, s.len() as int),
            )
        } else {
            seq![s]
        }
    }
}

/// The `(key, value)` pair a configuration line defines: the line is trimmed,
/// blank lines and `#` comments define nothing, and the rest is split at the
/// first `=`, with key and value trimmed again.
pub open spec fn line_entry(line: Seq<char>) -> Option<(Seq<char>, Seq<char>)> {
    let t = trim_ws(line);
    if t.len() == 0 || t[0] == '#' {
        None
    } else {
        let i = find_char(t, '=');
        if i < t.len() {
            Some((trim_ws(t.subrange(0, i as int)), trim_ws(t.subrange(i + 1 as int, t.len() as int))))
        } else {
            None
        }
    }
}

/// The value the configuration lines give a key, the last occurrence winning,
/// or None when no line sets it.
pub open spec fn cfg_value(lines: Seq<Seq<char>>, key: Seq<char>) -> Option<Seq<char>>
    decreases lines.len(),
{
    if lines.len() == 0 {
        None
    } else {
        let restv = cfg_value(lines.drop_first(), key);
        if restv is Some {
            restv
        } else {
            match line_entry(lines.first()) {
                Some(kv) => if kv.0 == key {
                    Some(kv.1)
                } else {
                    None
                },
                None => None,
            }
        }
    }
}

/// The value a `pyvenv.cfg` text gives a key.
pub open spec fn spec_cfg_field(content: Seq<char>, key: Seq<char>) -> Option<Seq<char>> {
    cfg_value(split_lines(content), key)
}

/// What `parse_pyvenv_cfg` promises: the recorded path, and each field equal
/// to what the configuration text gives its key.
pub open spec fn venv_info_matches(v: VenvInfo, rel_path: Seq<char>, content: Seq<char>) -> bool {
    &&& v.path@ == rel_path
    &&& opt_view(v.home) == spec_cfg_field(content, "home"@)
    &&& opt_view(v.version) == spec_cfg_field(content, "version"@)
    &&& opt_view(v.include_system_site_packages) == spec_cfg_field(
        content,
        "include-system-site-packages"@,
    )
}

proof fn lemma_cfg_value_single(l: Seq<char>, key: Seq<char>)
    ensures
        cfg_value(seq![l], key) == (match line_entry(l) {
            Some(kv) => if kv.0 == key {
                Some(kv.1)
            } else {
                None::<Seq<char>>
            },
            None => None::<Seq<char>>,
        }),
{
    assert(seq![l].drop_first() =~= Seq::<Seq<char>>::empty());
    assert(cfg_value(seq![l].drop_first(), key) is None);
    assert(seq![l].first() == l);
}

proof fn lemma_cfg_value_cons(l0: Seq<char>, rest: Seq<Seq<char>>, key: Seq<char>)
    ensures
        cfg_value(seq![l0] + rest, key) == (if cfg_value(rest, key) is Some {
            cfg_value(rest, key)
        } else {
            match line_entry(l0) {
                Some(kv) => if kv.0 == key {
                    Some(kv.1)
                } else {
                    None::<Seq<char>>
                },
                None => None::<Seq<char>>,
            }
        }),
{
    let lines = seq![l0] + rest;
    assert(lines.len() > 0);
    assert(lines.drop_first() =~= rest);
    assert(lines.first() == l0);
}

fn line_parts(line: &str) -> (r: Option<(String, String)>)
    ensures
        match r {
            Some(kv) => line_entry(line@) == Some((kv.0@, kv.1@)),
            None => line_entry(line@) is None,
        },
{
    let t = trim(line);
    let ts = t.as_str();
    let tlen = ts.unicode_len();
    if tlen == 0 {
        return None;
    }
    if ts.get_char(0) == '#' {
        return None;
    }
    let mut i: usize = 0;
    while i < tlen && ts.get_char(i) != '='
        invariant
            ts@ == t@,
            tlen == t@.len(),
            i <= tlen,
            forall|k: int| 0 <= k < i ==> t@[k] != '=',
        decreases tlen - i,
    {
        i = i + 1;
    }
    proof {
        lemma_find_char_at(t@, '=', i as int);
    }
    if i == tlen {
        None
    } else {
        let key = trim(ts.substring_char(0, i));
        let val = trim(ts.substring_char(i + 1, tlen));
        Some((key, val))
    }
}

fn scan_fields(content: &str) -> (f: (Option<String>, Option<String>, Option<String>))
    ensures
        opt_view(f.0) == spec_cfg_field(content@, "home"@),
        opt_view(f.1) == spec_cfg_field(content@, "version"@),
        opt_view(f.2) == spec_cfg_field(content@, "include-system-site-packages"@),
    decreases content@.len(),
{
    let n = content.unicode_len();
    if n == 0 {
        return (None, None, None);
    }
    let mut i: usize = 0;
    while i < n && content.get_char(i) != '\n'
        invariant
            n == content@.len(),
            i <= n,
            forall|k: int| 0 <= k < i ==> content@[k] != '\n',
        decreases n - i,
    {
        i = i + 1;
    }
    proof {
        lemma_find_char_at(content@, '\n', i as int);
    }
    if i == n {
        // a single line not ended by a newline
        proof {
            assert(split_lines(content@) =~= seq![content@]);
            lemma_cfg_value_single(content@, "home"@);
            lemma_cfg_value_single(content@, "version"@);
            lemma_cfg_value_single(content@, "include-system-site-packages"@);
        }
        match line_parts(content) {
            Some(kv) => assign_entry(kv),
            None => (None, None, None),
        }
    } else {
        let line_raw = content.substring_char(0, i);
        let line = if i > 0 && content.get_char(i - 1) == '\r' {
            content.substring_char(0, i - 1)
        } else {
            line_raw
        };
        proof {
            if i > 0 && content@[i as int - 1] == '\r' {
                assert(content@.subrange(0, i as int).drop_last() =~= content@.subrange(
                    0,
                    i as int - 1,
                ));
            }
            assert(line@ == chomp_cr(content@.subrange(0, i as int)));
        }
        let rest = content.substring_char(i + 1, n);
        let (rh, rv, ri) = scan_fields(rest);
        proof {
            let l0 = chomp_cr(content@.subrange(0, i as int));
            assert(split_lines(content@) == seq![l0] + split_lines(rest@));
            lemma_cfg_value_cons(l0, split_lines(rest@), "home"@);
            lemma_cfg_value_cons(l0, split_lines(rest@), "version"@);
            lemma_cfg_value_cons(l0, split_lines(rest@), "include-system-site-packages"@);
        }
        let head = line_parts(line);
        let h = merge_field(rh, &head, "home");
        let v = merge_field(rv, &head, "version");
        let inc = merge_field(ri, &head, "include-system-site-packages");
        (h, v, inc)
    }
}

/// The field values defined by a single configuration line.
fn assign_entry(kv: (String, String)) -> (f: (Option<String>, Option<String>, Option<String>))
    ensures
        opt_view(f.0) == (if kv.0@ == "home"@ {
            Some(kv.1@)
        } else {
            None::<Seq<char>>
        }),
        opt_view(f.1) == (if kv.0@ == "version"@ {
            Some(kv.1@)
        } else {
            None::<Seq<char>>
        }),
        opt_view(f.2) == (if kv.0@ == "include-system-site-packages"@ {
            Some(kv.1@)
        } else {
            None::<Seq<char>>
        }),
{
    proof {
        reveal_strlit("home");
        reveal_strlit("version");
        reveal_strlit("include-system-site-packages");
        assert("home"@.len() == 4);
        assert("version"@.len() == 7);
        assert("include-system-site-packages"@.len() == 28);
        assert("home"@ != "version"@);
        assert("home"@ != "include-system-site-packages"@);
        assert("version"@ != "include-system-site-packages"@);
    }
    let (key, val) = kv;
    if str_eq(key.as_str(), "home") {
        (Some(val), None, None)
    } else if str_eq(key.as_str(), "version") {
        (None, Some(val), None)
    } else if str_eq(key.as_str(), "include-system-site-packages") {
        (None, None, Some(val))
    } else {
        (None, None, None)
    }
}

/// Keeps a value set by a later line, else takes the current line's entry
/// when its key matches.
fn merge_field(later: Option<String>, head: &Option<(String, String)>, key: &str) -> (r: Option<
    String,
>)
    ensures
        opt_view(r) == (if opt_view(later) is Some {
            opt_view(later)
        } else {
            match *head {
                Some(kv) => if kv.0@ == key@ {
                    Some(kv.1@)
                } else {
                    None::<Seq<char>>
                },
                None => None::<Seq<char>>,
            }
        }),
{
    match later {
        Some(x) => Some(x),
        None => match head {
            Some(kv) => {
                if str_eq(kv.0.as_str(), key) {
                    Some(kv.1.clone())
                } else {
                    None
                }
            },
            None => None,
        },
    }
}

/// Parses the text of a `pyvenv.cfg` file, recording the given relative path
/// and the `home`, `version` and `include-system-site-packages` fields.
pub fn parse_pyvenv_cfg(rel_path: &str, content: &str) -> (v: VenvInfo)
    ensures
        venv_info_matches(v, rel_path@, content@),
{
    let (home, version, include_system_site_packages) = scan_fields(content);
    VenvInfo { path: rel_path.to_owned(), home, version, include_system_site_packages }
}

} // verus!
