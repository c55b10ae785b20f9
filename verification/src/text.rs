//! Character-level text utilities shared by the sanitizer, the command
//! builders and the listing parser.

use vstd::prelude::*;
use vstd::string::*;

verus! {

/// Whether `c` counts as whitespace when native command output is split
/// into columns.
pub uninterp spec fn is_whitespace_char(c: char) -> bool;

/// Whether `c` is a letter or digit, as identifiers are validated.
pub uninterp spec fn is_alphanumeric_char(c: char) -> bool;

/// Relies on char::is_whitespace: true exactly for Unicode whitespace,
/// a property of the character alone.
#[verifier::external_body]
pub(crate) fn char_is_whitespace(c: char) -> (r: bool)
    ensures
        r == is_whitespace_char(c),
{
    c.is_whitespace()
}

/// Relies on char::is_alphanumeric: true exactly for Unicode letters and
/// digits, a property of the character alone.
#[verifier::external_body]
pub(crate) fn char_is_alphanumeric(c: char) -> (r: bool)
    ensures
        r == is_alphanumeric_char(c),
{
    c.is_alphanumeric()
}

/// Relies on String::push: appends the character to the end of the string.
#[verifier::external_body]
pub(crate) fn push_char(s: &mut String, c: char)
    ensures
        final(s)@ == old(s)@.push(c),
{
    s.push(c)
}

/// The characters of `s`, in order, as a vector.
pub fn chars_vec(s: &str) -> (r: Vec<char>)
    ensures
        r@ == s@,
{
    let n = s.unicode_len();
    let mut r: Vec<char> = Vec::new();
    let mut i: usize = 0;
    while i < n
        invariant
            n == s@.len(),
            i <= n,
            r@ == s@.take(i as int),
        decreases n - i,
    {
        let c = s.get_char(i);
        r.push(c);
        i = i + 1;
        proof {
            assert(r@ =~= s@.take(i as int));
        }
    }
    proof {
        assert(s@.take(n as int) =~= s@);
    }
    r
}

/// The views of a sequence of character vectors.
pub open spec fn views(v: Seq<Vec<char>>) -> Seq<Seq<char>> {
    v.map_values(|t: Vec<char>| t@)
}

/// The length of the leading run of non-whitespace characters.
pub open spec fn spec_token_len(s: Seq<char>) -> int
    decreases s.len(),
{
    if s.len() == 0 || is_whitespace_char(s[0]) {
        0
    } else {
        1 + spec_token_len(s.skip(1))
    }
}

/// The leading token is never longer than the text, and is non-empty
/// exactly when the text starts with a non-whitespace character.
pub proof fn lemma_token_len_bounds(s: Seq<char>)
    ensures
        0 <= spec_token_len(s) <= s.len(),
        s.len() > 0 && !is_whitespace_char(s[0]) ==> spec_token_len(s) >= 1,
    decreases s.len(),
{
    if s.len() == 0 || is_whitespace_char(s[0]) {
    } else {
        lemma_token_len_bounds(s.skip(1));
    }
}

/// A run of `m` non-whitespace characters ended by whitespace or by the end
/// of the text is exactly the leading token.
pub proof fn lemma_token_len_is(s: Seq<char>, m: int)
    requires
        0 <= m <= s.len(),
        forall|k: int| 0 <= k < m ==> !is_whitespace_char(#[trigger] s[k]),
        m == s.len() || is_whitespace_char(s[m]),
    ensures
        spec_token_len(s) == m,
    decreases m,
{
    if m == 0 {
    } else {
        assert(!is_whitespace_char(s[0]));
        lemma_token_len_is(s.skip(1), m - 1);
    }
}

/// The whitespace-separated tokens of `s`, in order: maximal runs of
/// non-whitespace characters, with no empty tokens.
pub open spec fn spec_split_whitespace(s: Seq<char>) -> Seq<Seq<char>>
    decreases s.len(),
    via spec_split_whitespace_decreases
{
    if s.len() == 0 {
        Seq::empty()
    } else if is_whitespace_char(s[0]) {
        spec_split_whitespace(s.skip(1))
    } else {
        seq![s.take(spec_token_len(s))] + spec_split_whitespace(s.skip(spec_token_len(s)))
    }
}

#[via_fn]
proof fn spec_split_whitespace_decreases(s: Seq<char>) {
    lemma_token_len_bounds(s);
}

/// The whitespace-separated tokens of `cs`.
pub fn split_whitespace_chars(cs: &Vec<char>) -> (tokens: Vec<Vec<char>>)
    ensures
        views(tokens@) == spec_split_whitespace(cs@),
{
    let n = cs.len();
    let mut tokens: Vec<Vec<char>> = Vec::new();
    let mut i: usize = 0;
    proof {
        assert(cs@.skip(0) =~= cs@);
        assert(views(tokens@) + spec_split_whitespace(cs@) =~= spec_split_whitespace(cs@));
    }
    while i < n
        invariant
            n == cs@.len(),
            i <= n,
            spec_split_whitespace(cs@) == views(tokens@) + spec_split_whitespace(
                cs@.skip(i as int),
            ),
        decreases n - i,
    {
        if char_is_whitespace(cs[i]) {
            proof {
                assert(cs@.skip(i as int).skip(1) =~= cs@.skip(i + 1));
            }
            i = i + 1;
        } else {
            let ghost t = cs@.skip(i as int);
            let start = i;
            let mut tok: Vec<char> = Vec::new();
            while i < n && !char_is_whitespace(cs[i])
                invariant
                    n == cs@.len(),
                    start <= i <= n,
                    tok@ == cs@.subrange(start as int, i as int),
                    forall|k: int|
                        start <= k < i ==> !is_whitespace_char(#[trigger] cs@[k]),
                decreases n - i,
            {
                tok.push(cs[i]);
                i = i + 1;
                proof {
                    assert(tok@ =~= cs@.subrange(start as int, i as int));
                }
            }
            proof {
                let m = i - start;
                assert forall|k: int| 0 <= k < m implies !is_whitespace_char(#[trigger] t[k]) by {
                    assert(t[k] == cs@[start + k]);
                }
                if m < t.len() {
                    assert(t[m as int] == cs@[i as int]);
                }
                lemma_token_len_is(t, m as int);
                assert(t.take(m as int) =~= cs@.subrange(start as int, i as int));
                assert(t.skip(m as int) =~= cs@.skip(i as int));
                assert(views(tokens@.push(tok)) =~= views(tokens@).push(tok@));
                assert(views(tokens@).push(tok@) + spec_split_whitespace(cs@.skip(i as int))
                    =~= views(tokens@) + (seq![tok@] + spec_split_whitespace(
                    cs@.skip(i as int),
                )));
            }
            tokens.push(tok);
        }
    }
    proof {
        assert(cs@.skip(n as int) =~= Seq::<char>::empty());
        assert(views(tokens@) + Seq::<Seq<char>>::empty() =~= views(tokens@));
    }
    tokens
}

/// The length of the leading run of characters before a newline.
pub open spec fn spec_line_len(s: Seq<char>) -> int
    decreases s.len(),
{
    if s.len() == 0 || s[0] == '\n' {
        0
    } else {
        1 + spec_line_len(s.skip(1))
    }
}

/// The leading line is never longer than the text.
pub proof fn lemma_line_len_bounds(s: Seq<char>)
    ensures
        0 <= spec_line_len(s) <= s.len(),
    decreases s.len(),
{
    if s.len() == 0 || s[0] == '\n' {
    } else {
        lemma_line_len_bounds(s.skip(1));
    }
}

/// A run of `m` characters without a newline, ended by a newline or by the
/// end of the text, is exactly the leading line.
pub proof fn lemma_line_len_is(s: Seq<char>, m: int)
    requires
        0 <= m <= s.len(),
        forall|k: int| 0 <= k < m ==> #[trigger] s[k] != '\n',
        m == s.len() || s[m] == '\n',
    ensures
        spec_line_len(s) == m,
    decreases m,
{
    if m == 0 {
    } else {
        lemma_line_len_is(s.skip(1), m - 1);
    }
}

/// A line with its trailing carriage return, if any, removed.
pub open spec fn spec_trim_cr(line: Seq<char>) -> Seq<char> {
    if line.len() > 0 && line[line.len() - 1] == '\r' {
        line.take(line.len() - 1)
    } else {
        line
    }
}

/// The lines of `s`: split at each newline, with a carriage return before
/// the newline removed; a final trailing newline yields no extra empty line.
pub open spec fn spec_lines(s: Seq<char>) -> Seq<Seq<char>>
    decreases s.len(),
    via spec_lines_decreases
{
    if s.len() == 0 {
        Seq::empty()
    } else {
        let k = spec_line_len(s);
        let line = spec_trim_cr(s.take(k));
        if k == s.len() {
            seq![line]
        } else {
            seq![line] + spec_lines(s.skip(k + 1))
        }
    }
}

#[via_fn]
proof fn spec_lines_decreases(s: Seq<char>) {
    lemma_line_len_bounds(s);
}

/// The lines of `cs`.
pub fn split_lines_chars(cs: &Vec<char>) -> (lines: Vec<Vec<char>>)
    ensures
        views(lines@) == spec_lines(cs@),
{
    let n = cs.len();
    let mut lines: Vec<Vec<char>> = Vec::new();
    let mut i: usize = 0;
    proof {
        assert(cs@.skip(0) =~= cs@);
        assert(views(lines@) + spec_lines(cs@) =~= spec_lines(cs@));
    }
    while i < n
        invariant
            n == cs@.len(),
            i <= n,
            spec_lines(cs@) == views(lines@) + spec_lines(cs@.skip(i as int)),
        decreases n - i,
    {
        let ghost t = cs@.skip(i as int);
        let start = i;
        let mut line: Vec<char> = Vec::new();
        while i < n && cs[i] != '\n'
            invariant
                n == cs@.len(),
                start <= i <= n,
                line@ == cs@.subrange(start as int, i as int),
                forall|k: int| start <= k < i ==> #[trigger] cs@[k] != '\n',
            decreases n - i,
        {
            line.push(cs[i]);
            i = i + 1;
            proof {
                assert(line@ =~= cs@.subrange(start as int, i as int));
            }
        }
        proof {
            let m = i - start;
            assert forall|k: int| 0 <= k < m implies #[trigger] t[k] != '\n' by {
                assert(t[k] == cs@[start + k]);
            }
            if m < t.len() {
                assert(t[m as int] == cs@[i as int]);
            }
            lemma_line_len_is(t, m as int);
            assert(t.take(m as int) =~= cs@.subrange(start as int, i as int));
        }
        if line.len() > 0 && line[line.len() - 1] == '\r' {
            line.pop();
            proof {
                assert(line@ =~= spec_trim_cr(t.take(i - start)));
            }
        } else {
            proof {
                assert(line@ =~= spec_trim_cr(t.take(i - start)));
            }
        }
        proof {
            assert(views(lines@.push(line)) =~= views(lines@).push(line@));
        }
        if i < n {
            proof {
                assert(t.skip(i - start + 1) =~= cs@.skip(i + 1));
                assert(views(lines@).push(line@) + spec_lines(cs@.skip(i + 1)) =~= views(lines@)
                    + (seq![line@] + spec_lines(cs@.skip(i + 1))));
            }
            lines.push(line);
            i = i + 1;
        } else {
            proof {
                assert(spec_lines(t) =~= seq![line@]);
                assert(views(lines@).push(line@) =~= views(lines@) + seq![line@]);
                assert(cs@.skip(n as int) =~= Seq::<char>::empty());
            }
            lines.push(line);
        }
    }
    proof {
        assert(cs@.skip(n as int) =~= Seq::<char>::empty());
        assert(views(lines@) + Seq::<Seq<char>>::empty() =~= views(lines@));
    }
    lines
}

/// `p` occurs in `s` starting at position `j`.
pub open spec fn spec_contains_at(s: Seq<char>, p: Seq<char>, j: int) -> bool {
    0 <= j && j + p.len() <= s.len() && s.subrange(j, j + p.len()) == p
}

/// `p` occurs somewhere in `s`.
pub open spec fn spec_contains(s: Seq<char>, p: Seq<char>) -> bool {
    exists|j: int| spec_contains_at(s, p, j)
}

/// Whether `needle` occurs as a contiguous run inside `hay`.
pub fn contains_chars(hay: &Vec<char>, needle: &Vec<char>) -> (r: bool)
    ensures
        r == spec_contains(hay@, needle@),
{
    let n = hay.len();
    let m = needle.len();
    if m > n {
        proof {
            assert forall|j: int| !spec_contains_at(hay@, needle@, j) by {}
        }
        return false;
    }
    let mut j: usize = 0;
    while j <= n - m
        invariant
            n == hay@.len(),
            m == needle@.len(),
            m <= n,
            j <= n - m + 1,
            forall|jj: int| 0 <= jj < j ==> !spec_contains_at(hay@, needle@, jj),
        decreases n - m - j + 1,
    {
        let mut k: usize = 0;
        while k < m && hay[j + k] == needle[k]
            invariant
                n == hay@.len(),
                m == needle@.len(),
                m <= n,
                j + m <= n,
                k <= m,
                forall|kk: int| 0 <= kk < k ==> hay@[j + kk] == needle@[kk],
            decreases m - k,
        {
            k = k + 1;
        }
        if k == m {
            proof {
                assert(hay@.subrange(j as int, j + m) =~= needle@);
                assert(spec_contains_at(hay@, needle@, j as int));
            }
            return true;
        }
        proof {
            assert(!spec_contains_at(hay@, needle@, j as int)) by {
                if hay@.subrange(j as int, j + m) == needle@ {
                    assert(hay@.subrange(j as int, j + m)[k as int] == needle@[k as int]);
                    assert(hay@[j + k] == needle@[k as int]);
                }
            }
        }
        j = j + 1;
    }
    proof {
        assert forall|jj: int| !spec_contains_at(hay@, needle@, jj) by {
            if 0 <= jj && jj + needle@.len() <= hay@.len() {
                assert(jj < j);
            }
        }
    }
    false
}

/// The string holding exactly the characters of `v`, in order.
pub fn string_from_chars(v: &Vec<char>) -> (r: String)
    ensures
        r@ == v@,
{
    let mut r = String::new();
    let mut i: usize = 0;
    while i < v.len()
        invariant
            i <= v@.len(),
            r@ == v@.take(i as int),
        decreases v@.len() - i,
    {
        push_char(&mut r, v[i]);
        i = i + 1;
        proof {
            assert(r@ =~= v@.take(i as int));
        }
    }
    proof {
        assert(v@.take(v@.len() as int) =~= v@);
    }
    r
}

} // verus!
