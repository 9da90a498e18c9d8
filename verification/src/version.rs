//! The best-effort version extraction heuristic. Applied only to output
//! lines carrying a backend's success marker or the word `upgraded`; such a
//! line is tokenized on whitespace and the first token that looks like a
//! version — it contains a digit and either starts with a `v` marker or
//! holds an embedded period — is returned with its leading `v` markers
//! stripped. No matching line or token yields no version; this is telemetry,
//! never the authority on what is installed.

use vstd::prelude::*;
use vstd::string::StrSliceExecFns;
use crate::text::has_char;
use crate::text::has_digit;
use crate::text::has_substring;
use crate::text::contains_str;
use crate::text::seq_has_char;
use crate::text::seq_has_digit;
use crate::text::split_on;
use crate::text::split_seq;
use crate::text::tokens;
use crate::text::tokens_of;

verus! {

/// A token that looks like a version: it holds a digit, and either starts
/// with the `v` marker or has an embedded period.
pub open spec fn is_version_token(t: Seq<char>) -> bool {
    seq_has_digit(t) && (t[0] == 'v' || seq_has_char(t, '.'))
}

/// `t` with every leading `v` marker removed.
pub open spec fn strip_v(t: Seq<char>) -> Seq<char>
    decreases t.len(),
{
    if t.len() > 0 && t[0] == 'v' {
        strip_v(t.drop_first())
    } else {
        t
    }
}

/// The first version-shaped token of `toks`, already stripped of its
/// leading `v` markers.
pub open spec fn first_version_token(toks: Seq<Seq<char>>) -> Option<Seq<char>>
    decreases toks.len(),
{
    if toks.len() == 0 {
        None
    } else if is_version_token(toks[0]) {
        Some(strip_v(toks[0]))
    } else {
        first_version_token(toks.drop_first())
    }
}

/// A line the heuristic looks at: it carries the backend's success marker
/// or the word `upgraded`.
pub open spec fn is_marked_line(line: Seq<char>, marker: Seq<char>) -> bool {
    has_substring(line, marker) || has_substring(line, "upgraded"@)
}

/// The version extracted from a sequence of output lines: the first
/// version-shaped token of the first marked line that has one.
pub open spec fn version_in_lines(lines: Seq<Seq<char>>, marker: Seq<char>) -> Option<Seq<char>>
    decreases lines.len(),
{
    if lines.len() == 0 {
        None
    } else if is_marked_line(lines[0], marker) && first_version_token(tokens_of(lines[0])) is Some {
        first_version_token(tokens_of(lines[0]))
    } else {
        version_in_lines(lines.drop_first(), marker)
    }
}

/// The version extracted from full captured output, line by line.
pub open spec fn spec_version_in_output(out: Seq<char>, marker: Seq<char>) -> Option<Seq<char>> {
    version_in_lines(split_seq(out, '\n'), marker)
}

/// Runtime test for [`is_version_token`].
fn looks_like_version(t: &str) -> (r: bool)
    ensures
        r == is_version_token(t@),
{
    if !has_digit(t) {
        return false;
    }
    proof {
        let i = choose|i: int| 0 <= i < t@.len() && crate::text::is_digit_char(t@[i]);
        assert(t@.len() > 0);
    }
    if t.get_char(0) == 'v' {
        return true;
    }
    has_char(t, '.')
}

/// Remove every leading `v` marker, exactly as [`strip_v`] says.
pub fn strip_leading_v(t: &str) -> (r: String)
    ensures
        r@ == strip_v(t@),
{
    let n = t.unicode_len();
    let mut k: usize = 0;
    proof {
        assert(t@.subrange(0, n as int) =~= t@);
    }
    while k < n && t.get_char(k) == 'v'
        invariant
            k <= n,
            n == t@.len(),
            strip_v(t@) == strip_v(t@.subrange(k as int, n as int)),
        decreases n - k,
    {
        proof {
            let sub = t@.subrange(k as int, n as int);
            assert(sub[0] == t@[k as int]);
            assert(sub.drop_first() =~= t@.subrange(k as int + 1, n as int));
        }
        k = k + 1;
    }
    proof {
        if k < n {
            assert(t@.subrange(k as int, n as int)[0] == t@[k as int]);
        }
    }
    t.substring_char(k, n).to_owned()
}

/// The first version-shaped token of one line, stripped, exactly as
/// [`first_version_token`] says of the line's whitespace tokens.
fn first_version_in_line(line: &str) -> (r: Option<String>)
    ensures
        r.deep_view() == first_version_token(tokens_of(line@)),
{
    let toks = tokens(line);
    let n = toks.len();
    let mut j: usize = 0;
    proof {
        assert(toks.deep_view().skip(0) =~= toks.deep_view());
    }
    while j < n
        invariant
            n == toks@.len(),
            j <= n,
            toks.deep_view() == tokens_of(line@),
            first_version_token(tokens_of(line@)) == first_version_token(
                toks.deep_view().skip(j as int),
            ),
        decreases n - j,
    {
        proof {
            assert(toks.deep_view().skip(j as int)[0] == toks.deep_view()[j as int]);
            assert(toks.deep_view().skip(j as int).drop_first() =~= toks.deep_view().skip(
                j as int + 1,
            ));
        }
        if looks_like_version(toks[j].as_str()) {
            let stripped = strip_leading_v(toks[j].as_str());
            return Some(stripped);
        }
        j = j + 1;
    }
    proof {
        assert(toks.deep_view().skip(n as int) =~= Seq::<Seq<char>>::empty());
    }
    None
}

/// Scan full captured output for a version, exactly as
/// [`spec_version_in_output`] says: only lines carrying `marker` or the
/// word `upgraded` are considered, and the first version-shaped token wins.
pub fn version_in_output(out: &str, marker: &str) -> (r: Option<String>)
    ensures
        r.deep_view() == spec_version_in_output(out@, marker@),
{
    let lines = split_on(out, '\n');
    let n = lines.len();
    let mut i: usize = 0;
    proof {
        assert(lines.deep_view().skip(0) =~= lines.deep_view());
    }
    while i < n
        invariant
            n == lines@.len(),
            i <= n,
            lines.deep_view() == split_seq(out@, '\n'),
            spec_version_in_output(out@, marker@) == version_in_lines(
                lines.deep_view().skip(i as int),
                marker@,
            ),
        decreases n - i,
    {
        proof {
            assert(lines.deep_view().skip(i as int)[0] == lines.deep_view()[i as int]);
            assert(lines.deep_view().skip(i as int).drop_first() =~= lines.deep_view().skip(
                i as int + 1,
            ));
        }
        if contains_str(lines[i].as_str(), marker) || contains_str(lines[i].as_str(), "upgraded") {
            match first_version_in_line(lines[i].as_str()) {
                Some(v) => {
                    return Some(v);
                },
                None => {},
            }
        }
        i = i + 1;
    }
    proof {
        assert(lines.deep_view().skip(n as int) =~= Seq::<Seq<char>>::empty());
    }
    None
}

} // verus!
