//! Turning a raw server address into a token safe to use as a single path
//! component.

use vstd::prelude::*;
use crate::text::{chars_vec, string_from_chars};

verus! {

/// A character the sanitizer does not allow into a path component: the two
/// path separators, the drive/port colon, and the `?` and `*` wildcards.
pub open spec fn is_hostile_char(c: char) -> bool {
    c == '/' || c == '\\' || c == ':' || c == '?' || c == '*'
}

/// What sanitizing does, one left-to-right scan: a `//` pair (the network
/// address prefix) is dropped, any other hostile character becomes `_`, and
/// everything else is kept.
pub open spec fn spec_sanitize(s: Seq<char>) -> Seq<char>
    decreases s.len(),
{
    if s.len() == 0 {
        Seq::empty()
    } else if s.len() >= 2 && s[0] == '/' && s[1] == '/' {
        spec_sanitize(s.skip(2))
    } else if is_hostile_char(s[0]) {
        seq!['_'] + spec_sanitize(s.skip(1))
    } else {
        seq![s[0]] + spec_sanitize(s.skip(1))
    }
}

/// No hostile character survives sanitizing; in particular the output holds
/// no `/`, `\`, `:`, `?` or `*`, and so no `//` either.
pub proof fn lemma_sanitize_no_hostile(s: Seq<char>)
    ensures
        forall|i: int|
            0 <= i < spec_sanitize(s).len() ==> !is_hostile_char(#[trigger] spec_sanitize(s)[i]),
    decreases s.len(),
{
    if s.len() == 0 {
    } else if s.len() >= 2 && s[0] == '/' && s[1] == '/' {
        lemma_sanitize_no_hostile(s.skip(2));
        assert(spec_sanitize(s) == spec_sanitize(s.skip(2)));
        assert forall|i: int| 0 <= i < spec_sanitize(s).len() implies !is_hostile_char(
            #[trigger] spec_sanitize(s)[i],
        ) by {
            assert(spec_sanitize(s)[i] == spec_sanitize(s.skip(2))[i]);
        }
    } else if is_hostile_char(s[0]) {
        lemma_sanitize_no_hostile(s.skip(1));
        assert forall|i: int| 0 <= i < spec_sanitize(s).len() implies !is_hostile_char(
            #[trigger] spec_sanitize(s)[i],
        ) by {
            if i > 0 {
                assert(spec_sanitize(s)[i] == spec_sanitize(s.skip(1))[i - 1]);
            }
        }
    } else {
        lemma_sanitize_no_hostile(s.skip(1));
        assert forall|i: int| 0 <= i < spec_sanitize(s).len() implies !is_hostile_char(
            #[trigger] spec_sanitize(s)[i],
        ) by {
            if i > 0 {
                assert(spec_sanitize(s)[i] == spec_sanitize(s.skip(1))[i - 1]);
            }
        }
    }
}

/// A string without hostile characters is left exactly as it is.
pub proof fn lemma_sanitize_fixed(s: Seq<char>)
    requires
        forall|i: int| 0 <= i < s.len() ==> !is_hostile_char(#[trigger] s[i]),
    ensures
        spec_sanitize(s) == s,
    decreases s.len(),
{
    if s.len() == 0 {
        assert(spec_sanitize(s) =~= s);
    } else {
        assert(!is_hostile_char(s[0]));
        lemma_sanitize_fixed(s.skip(1));
        assert(seq![s[0]] + s.skip(1) =~= s);
    }
}

/// Sanitizing is idempotent: a second pass over already-sanitized text
/// changes nothing.
pub proof fn lemma_sanitize_idempotent(s: Seq<char>)
    ensures
        spec_sanitize(spec_sanitize(s)) == spec_sanitize(s),
{
    lemma_sanitize_no_hostile(s);
    lemma_sanitize_fixed(spec_sanitize(s));
}

/// The filesystem-safe token for a raw server address.
pub fn sanitize_server_name(server: &str) -> (r: String)
    ensures
        r@ == spec_sanitize(server@),
{
    let cs = chars_vec(server);
    let n = cs.len();
    let mut out: Vec<char> = Vec::new();
    let mut i: usize = 0;
    proof {
        assert(cs@.skip(0) =~= cs@);
        assert(out@ + spec_sanitize(cs@) =~= spec_sanitize(server@));
    }
    while i < n
        invariant
            n == cs@.len(),
            cs@ == server@,
            i <= n,
            spec_sanitize(server@) == out@ + spec_sanitize(cs@.skip(i as int)),
        decreases n - i,
    {
        let ghost t = cs@.skip(i as int);
        if i + 1 < n && cs[i] == '/' && cs[i + 1] == '/' {
            proof {
                assert(t[0] == '/' && t[1] == '/');
                assert(t.skip(2) =~= cs@.skip(i + 2));
            }
            i = i + 2;
        } else {
            let c = cs[i];
            let keep = if c == '/' || c == '\\' || c == ':' || c == '?' || c == '*' {
                '_'
            } else {
                c
            };
            proof {
                assert(t[0] == c);
                assert(t.skip(1) =~= cs@.skip(i + 1));
                if is_hostile_char(c) {
                    assert(!(t.len() >= 2 && t[0] == '/' && t[1] == '/')) by {
                        if t.len() >= 2 && t[0] == '/' && t[1] == '/' {
                            assert(i + 1 < n && cs@[i as int] == '/' && cs@[i + 1] == '/');
                        }
                    }
                    assert(spec_sanitize(t) == seq!['_'] + spec_sanitize(t.skip(1)));
                } else {
                    assert(spec_sanitize(t) == seq![c] + spec_sanitize(t.skip(1)));
                }
                assert(out@ + (seq![keep] + spec_sanitize(cs@.skip(i + 1))) =~= out@.push(keep)
                    + spec_sanitize(cs@.skip(i + 1)));
            }
            out.push(keep);
            i = i + 1;
        }
    }
    proof {
        assert(cs@.skip(n as int) =~= Seq::<char>::empty());
        assert(out@ + Seq::<char>::empty() =~= out@);
    }
    string_from_chars(&out)
}

} // verus!
