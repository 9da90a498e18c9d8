//! Verified text utilities the backend parsers are built from: splitting on
//! a delimiter, whitespace tokenization, trimming, substring search, and
//! joining tokens. Every executable function is proved equal to a spec-level
//! function over `Seq<char>` views.

use vstd::prelude::*;
use vstd::string::StrSliceExecFns;
use vstd::string::StringExecFns;

verus! {

/// The characters the parsers treat as blank space.
pub open spec fn is_space_char(c: char) -> bool {
    c == ' ' || c == '\t' || c == '\r' || c == '\n'
}

/// Runtime test for `is_space_char`.
pub fn is_space(c: char) -> (r: bool)
    ensures
        r == is_space_char(c),
{
    c == ' ' || c == '\t' || c == '\r' || c == '\n'
}

/// A decimal digit.
pub open spec fn is_digit_char(c: char) -> bool {
    48 <= c as u32 <= 57
}

/// Runtime test for `is_digit_char`.
pub fn is_digit(c: char) -> (r: bool)
    ensures
        r == is_digit_char(c),
{
    let u = c as u32;
    48 <= u && u <= 57
}

/// Whether `c` occurs anywhere in `s`.
pub open spec fn seq_has_char(s: Seq<char>, c: char) -> bool {
    exists|i: int| 0 <= i < s.len() && s[i] == c
}

/// Whether any character of `s` is a decimal digit.
pub open spec fn seq_has_digit(s: Seq<char>) -> bool {
    exists|i: int| 0 <= i < s.len() && is_digit_char(s[i])
}

/// Runtime search for a single character.
pub fn has_char(s: &str, c: char) -> (r: bool)
    ensures
        r == seq_has_char(s@, c),
{
    let n = s.unicode_len();
    let mut i: usize = 0;
    while i < n
        invariant
            i <= n,
            n == s@.len(),
            forall|k: int| 0 <= k < i ==> s@[k] != c,
        decreases n - i,
    {
        if s.get_char(i) == c {
            return true;
        }
        i = i + 1;
    }
    false
}

/// Runtime search for a decimal digit.
pub fn has_digit(s: &str) -> (r: bool)
    ensures
        r == seq_has_digit(s@),
{
    let n = s.unicode_len();
    let mut i: usize = 0;
    while i < n
        invariant
            i <= n,
            n == s@.len(),
            forall|k: int| 0 <= k < i ==> !is_digit_char(s@[k]),
        decreases n - i,
    {
        if is_digit(s.get_char(i)) {
            return true;
        }
        i = i + 1;
    }
    false
}

/// The pieces of `s` that remain between occurrences of `sep`, with `cur`
/// the piece under construction. Driving function of [`split_seq`].
pub open spec fn split_go(s: Seq<char>, sep: char, cur: Seq<char>) -> Seq<Seq<char>>
    decreases s.len(),
{
    if s.len() == 0 {
        seq![cur]
    } else if s[0] == sep {
        seq![cur] + split_go(s.drop_first(), sep, Seq::<char>::empty())
    } else {
        split_go(s.drop_first(), sep, cur.push(s[0]))
    }
}

/// `s` split on every occurrence of `sep`; always at least one piece, and
/// empty pieces are kept (so `"a||"` has three pieces).
pub open spec fn split_seq(s: Seq<char>, sep: char) -> Seq<Seq<char>> {
    split_go(s, sep, Seq::<char>::empty())
}

/// Split `s` on `sep`, keeping empty pieces, exactly as [`split_seq`] says.
pub fn split_on(s: &str, sep: char) -> (r: Vec<String>)
    ensures
        r.deep_view() == split_seq(s@, sep),
{
    let n = s.unicode_len();
    let mut out: Vec<String> = Vec::new();
    let mut cur: String = String::new();
    let mut i: usize = 0;
    proof {
        assert(s@.skip(0) =~= s@);
        assert(out.deep_view() =~= Seq::<Seq<char>>::empty());
    }
    while i < n
        invariant
            i <= n,
            n == s@.len(),
            split_seq(s@, sep) == out.deep_view() + split_go(s@.skip(i as int), sep, cur@),
        decreases n - i,
    {
        let ghost out0 = out.deep_view();
        let ghost cur0 = cur@;
        proof {
            assert(s@.skip(i as int)[0] == s@[i as int]);
            assert(s@.skip(i as int).drop_first() =~= s@.skip(i as int + 1));
        }
        let c = s.get_char(i);
        if c == sep {
            out.push(cur);
            cur = String::new();
            proof {
                assert(out.deep_view() =~= out0 + seq![cur0]);
                assert((out0 + seq![cur0]) + split_go(s@.skip(i as int + 1), sep, cur@) =~= out0
                    + (seq![cur0] + split_go(s@.skip(i as int + 1), sep, cur@)));
            }
        } else {
            let piece = s.substring_char(i, i + 1);
            proof {
                assert(piece@ =~= seq![s@[i as int]]);
            }
            cur.append(piece);
            proof {
                assert(cur@ =~= cur0.push(s@[i as int]));
            }
        }
        i = i + 1;
    }
    proof {
        assert(s@.skip(n as int) =~= Seq::<char>::empty());
    }
    let ghost out0 = out.deep_view();
    let ghost cur0 = cur@;
    out.push(cur);
    proof {
        assert(out.deep_view() =~= out0 + seq![cur0]);
    }
    out
}

/// The whitespace-delimited tokens of `s`, with `cur` the token under
/// construction. Driving function of [`tokens_of`].
pub open spec fn tokens_go(s: Seq<char>, cur: Seq<char>) -> Seq<Seq<char>>
    decreases s.len(),
{
    if s.len() == 0 {
        if cur.len() == 0 {
            Seq::<Seq<char>>::empty()
        } else {
            seq![cur]
        }
    } else if is_space_char(s[0]) {
        if cur.len() == 0 {
            tokens_go(s.drop_first(), Seq::<char>::empty())
        } else {
            seq![cur] + tokens_go(s.drop_first(), Seq::<char>::empty())
        }
    } else {
        tokens_go(s.drop_first(), cur.push(s[0]))
    }
}

/// The whitespace-delimited tokens of `s`: maximal runs of non-space
/// characters, in order, with no empty tokens.
pub open spec fn tokens_of(s: Seq<char>) -> Seq<Seq<char>> {
    tokens_go(s, Seq::<char>::empty())
}

/// Tokenize `s` on whitespace, exactly as [`tokens_of`] says.
pub fn tokens(s: &str) -> (r: Vec<String>)
    ensures
        r.deep_view() == tokens_of(s@),
{
    let n = s.unicode_len();
    let mut out: Vec<String> = Vec::new();
    let mut cur: String = String::new();
    let mut i: usize = 0;
    proof {
        assert(s@.skip(0) =~= s@);
        assert(out.deep_view() =~= Seq::<Seq<char>>::empty());
    }
    while i < n
        invariant
            i <= n,
            n == s@.len(),
            tokens_of(s@) == out.deep_view() + tokens_go(s@.skip(i as int), cur@),
        decreases n - i,
    {
        let ghost out0 = out.deep_view();
        let ghost cur0 = cur@;
        proof {
            assert(s@.skip(i as int)[0] == s@[i as int]);
            assert(s@.skip(i as int).drop_first() =~= s@.skip(i as int + 1));
        }
        let c = s.get_char(i);
        if is_space(c) {
            if !cur.as_str().is_empty() {
                out.push(cur);
                cur = String::new();
                proof {
                    assert(out.deep_view() =~= out0 + seq![cur0]);
                    assert((out0 + seq![cur0]) + tokens_go(s@.skip(i as int + 1), cur@) =~= out0 + (
                    seq![cur0] + tokens_go(s@.skip(i as int + 1), cur@)));
                }
            } else {
                proof {
                    assert(cur@ =~= Seq::<char>::empty());
                }
            }
        } else {
            let piece = s.substring_char(i, i + 1);
            proof {
                assert(piece@ =~= seq![s@[i as int]]);
            }
            cur.append(piece);
            proof {
                assert(cur@ =~= cur0.push(s@[i as int]));
            }
        }
        i = i + 1;
    }
    proof {
        assert(s@.skip(n as int) =~= Seq::<char>::empty());
    }
    if !cur.as_str().is_empty() {
        let ghost out0 = out.deep_view();
        let ghost cur0 = cur@;
        out.push(cur);
        proof {
            assert(out.deep_view() =~= out0 + seq![cur0]);
        }
    }
    out
}

/// `s` with leading and trailing blank space removed.
pub open spec fn trim_of(s: Seq<char>) -> Seq<char>
    decreases s.len(),
{
    if s.len() == 0 {
        s
    } else if is_space_char(s[0]) {
        trim_of(s.drop_first())
    } else if is_space_char(s[s.len() - 1]) {
        trim_of(s.drop_last())
    } else {
        s
    }
}

/// Trim blank space from both ends of `s`, exactly as [`trim_of`] says.
pub fn trimmed(s: &str) -> (r: String)
    ensures
        r@ == trim_of(s@),
{
    let n = s.unicode_len();
    let mut lo: usize = 0;
    let mut hi: usize = n;
    proof {
        assert(s@.subrange(0, n as int) =~= s@);
    }
    while lo < hi && is_space(s.get_char(lo))
        invariant
            lo <= hi <= n,
            n == s@.len(),
            trim_of(s@) == trim_of(s@.subrange(lo as int, hi as int)),
        decreases hi - lo,
    {
        proof {
            let sub = s@.subrange(lo as int, hi as int);
            assert(sub[0] == s@[lo as int]);
            assert(sub.drop_first() =~= s@.subrange(lo as int + 1, hi as int));
        }
        lo = lo + 1;
    }
    while lo < hi && is_space(s.get_char(hi - 1))
        invariant
            lo <= hi <= n,
            n == s@.len(),
            trim_of(s@) == trim_of(s@.subrange(lo as int, hi as int)),
            lo < hi ==> !is_space_char(s@[lo as int]),
        decreases hi,
    {
        proof {
            let sub = s@.subrange(lo as int, hi as int);
            assert(sub[0] == s@[lo as int]);
            assert(sub[sub.len() - 1] == s@[hi as int - 1]);
            assert(sub.drop_last() =~= s@.subrange(lo as int, hi as int - 1));
        }
        hi = hi - 1;
    }
    proof {
        let sub = s@.subrange(lo as int, hi as int);
        if lo < hi {
            assert(sub[0] == s@[lo as int]);
            assert(sub[sub.len() - 1] == s@[hi as int - 1]);
        }
        assert(trim_of(s@) == sub);
    }
    let piece = s.substring_char(lo, hi);
    piece.to_owned()
}

/// Whether `needle` occurs in `hay` starting at position `i`.
pub open spec fn matches_at(hay: Seq<char>, needle: Seq<char>, i: int) -> bool {
    0 <= i && i + needle.len() <= hay.len() && hay.subrange(i, i + needle.len()) == needle
}

/// Whether `needle` occurs anywhere in `hay`.
pub open spec fn has_substring(hay: Seq<char>, needle: Seq<char>) -> bool {
    exists|i: int| matches_at(hay, needle, i)
}

/// Runtime test of [`matches_at`] for one position.
fn match_at(hay: &str, needle: &str, i: usize) -> (r: bool)
    requires
        i + needle@.len() <= hay@.len(),
        hay@.len() <= usize::MAX,
    ensures
        r == matches_at(hay@, needle@, i as int),
{
    let nn = needle.unicode_len();
    let mut j: usize = 0;
    while j < nn
        invariant
            j <= nn,
            nn == needle@.len(),
            i + nn <= hay@.len(),
            hay@.len() <= usize::MAX,
            forall|t: int| 0 <= t < j ==> hay@[i + t] == needle@[t],
        decreases nn - j,
    {
        if s_get(hay, i + j) != s_get(needle, j) {
            proof {
                assert(hay@.subrange(i as int, i as int + nn as int)[j as int] == hay@[i + j]);
                assert(!matches_at(hay@, needle@, i as int));
            }
            return false;
        }
        j = j + 1;
    }
    proof {
        assert(hay@.subrange(i as int, i as int + nn as int) =~= needle@);
    }
    true
}

/// One character of `s`, by position.
fn s_get(s: &str, i: usize) -> (c: char)
    requires
        i < s@.len(),
    ensures
        c == s@[i as int],
{
    s.get_char(i)
}

/// Runtime substring search, exactly as [`has_substring`] says.
pub fn contains_str(hay: &str, needle: &str) -> (r: bool)
    ensures
        r == has_substring(hay@, needle@),
{
    let hn = hay.unicode_len();
    let nn = needle.unicode_len();
    if nn > hn {
        proof {
            assert(forall|k: int| !matches_at(hay@, needle@, k));
        }
        return false;
    }
    if nn == 0 {
        proof {
            assert(hay@.subrange(0, 0) =~= needle@);
            assert(matches_at(hay@, needle@, 0));
        }
        return true;
    }
    let last = hn - nn;
    let mut i: usize = 0;
    while i <= last
        invariant
            1 <= nn <= hn,
            last == hn - nn,
            hn == hay@.len(),
            nn == needle@.len(),
            i <= last + 1,
            forall|k: int| 0 <= k < i ==> !matches_at(hay@, needle@, k),
        decreases last + 1 - i,
    {
        if match_at(hay, needle, i) {
            proof {
                assert(matches_at(hay@, needle@, i as int));
            }
            return true;
        }
        i = i + 1;
    }
    proof {
        assert forall|k: int| !matches_at(hay@, needle@, k) by {
            if 0 <= k < i as int {
            }
        };
    }
    false
}

/// The tokens of `parts`, joined with single spaces. Empty for no tokens.
pub open spec fn joined(parts: Seq<Seq<char>>) -> Seq<char>
    decreases parts.len(),
{
    if parts.len() == 0 {
        Seq::<char>::empty()
    } else if parts.len() == 1 {
        parts[0]
    } else {
        joined(parts.drop_last()) + seq![' '] + parts.last()
    }
}

/// Join the first `end` elements of `parts` with single spaces, exactly as
/// [`joined`] says of that prefix.
pub fn join_prefix(parts: &Vec<String>, end: usize) -> (r: String)
    requires
        end <= parts@.len(),
    ensures
        r@ == joined(parts.deep_view().take(end as int)),
{
    let mut out = String::new();
    let mut i: usize = 0;
    proof {
        assert(parts.deep_view().take(0) =~= Seq::<Seq<char>>::empty());
    }
    while i < end
        invariant
            i <= end,
            end <= parts@.len(),
            out@ == joined(parts.deep_view().take(i as int)),
        decreases end - i,
    {
        let ghost pre = parts.deep_view().take(i as int);
        let ghost post = parts.deep_view().take(i as int + 1);
        proof {
            assert(post.drop_last() =~= pre);
            assert(post.last() == parts.deep_view()[i as int]);
        }
        if i > 0 {
            out.append(" ");
            out.append(parts[i].as_str());
            proof {
                reveal_strlit(" ");
                assert(" "@ =~= seq![' ']);
                assert(out@ == joined(pre) + seq![' '] + parts.deep_view()[i as int]);
            }
        } else {
            out.append(parts[i].as_str());
            proof {
                assert(out@ =~= parts.deep_view()[i as int]);
            }
        }
        i = i + 1;
    }
    out
}

} // verus!
