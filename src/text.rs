//! Text helpers over std's string functions, with their behaviour stated on
//! character sequences.
use vstd::prelude::*;

verus! {

/// `pat` occurs in `s` as a contiguous run of characters.
pub open spec fn has_infix(s: Seq<char>, pat: Seq<char>) -> bool {
    exists|i: int|
        0 <= i && i + pat.len() <= s.len() && #[trigger] s.subrange(i, i + pat.len()) == pat
}

/// The characters of `s` before the first `sep`, or all of `s` when none occurs.
pub open spec fn before_first(s: Seq<char>, sep: char) -> Seq<char>
    decreases s.len(),
{
    if s.len() == 0 {
        s
    } else if s[0] == sep {
        Seq::empty()
    } else {
        seq![s[0]] + before_first(s.drop_first(), sep)
    }
}

proof fn lemma_before_first_absent(s: Seq<char>, sep: char)
    requires
        !s.contains(sep),
    ensures
        before_first(s, sep) == s,
    decreases s.len(),
{
    if s.len() > 0 {
        assert(!s.drop_first().contains(sep)) by {
            if s.drop_first().contains(sep) {
                let k = choose|k: int| 0 <= k < s.drop_first().len() && s.drop_first()[k] == sep;
                assert(s[k + 1] == sep);
            }
        }
        lemma_before_first_absent(s.drop_first(), sep);
        assert(s[0] != sep) by {
            if s[0] == sep {
                assert(s.contains(sep));
            }
        }
        assert(s == seq![s[0]] + s.drop_first());
    }
}

proof fn lemma_before_first_split(a: Seq<char>, sep: char, b: Seq<char>)
    requires
        !a.contains(sep),
    ensures
        before_first(a + seq![sep] + b, sep) == a,
    decreases a.len(),
{
    let s = a + seq![sep] + b;
    if a.len() == 0 {
        assert(s[0] == sep);
    } else {
        assert(a[0] != sep) by {
            if a[0] == sep {
                assert(a.contains(sep));
            }
        }
        assert(!a.drop_first().contains(sep)) by {
            if a.drop_first().contains(sep) {
                let k = choose|k: int| 0 <= k < a.drop_first().len() && a.drop_first()[k] == sep;
                assert(a[k + 1] == sep);
            }
        }
        lemma_before_first_split(a.drop_first(), sep, b);
        assert(s.drop_first() == a.drop_first() + seq![sep] + b);
        assert(a == seq![a[0]] + a.drop_first());
    }
}

/// Relies on `str::contains` with a string pattern: true exactly when `pat`
/// occurs in `s` as a substring.
#[verifier::external_body]
pub(crate) fn contains_text(s: &str, pat: &str) -> (r: bool)
    ensures
        r == has_infix(s@, pat@),
{
    s.contains(pat)
}

/// Relies on `str::split_once` with a `char` delimiter: `None` when `sep` does
/// not occur, else the text before its first occurrence and the text after it.
#[verifier::external_body]
fn split_once_char(s: &str, sep: char) -> (r: Option<(String, String)>)
    ensures
        r is None <==> !s@.contains(sep),
        r matches Some(p) ==> s@ == p.0@ + seq![sep] + p.1@ && !p.0@.contains(sep),
{
    match s.split_once(sep) {
        Some((a, b)) => Some((a.to_string(), b.to_string())),
        None => None,
    }
}

/// The part of `s` before its first `sep`; all of `s` when `sep` is absent.
pub fn text_before(s: &str, sep: char) -> (r: String)
    ensures
        r@ == before_first(s@, sep),
{
    match split_once_char(s, sep) {
        Some(p) => {
            proof {
                lemma_before_first_split(p.0@, sep, p.1@);
            }
            p.0
        },
        None => {
            proof {
                lemma_before_first_absent(s@, sep);
            }
            s.to_string()
        },
    }
}

} // verus!
