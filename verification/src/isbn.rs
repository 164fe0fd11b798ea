//! ISBN input checks and the lookup addresses built from an ISBN.
use vstd::prelude::*;
use crate::text::{chars_of, push_char, string_of, trim_text, trimmed, is_white_space};

verus! {

/// A character that may appear in a cleaned-up ISBN: a decimal digit or `X`.
pub open spec fn is_isbn_char(c: char) -> bool {
    ('0' <= c && c <= '9') || c == 'X'
}

/// Not a hyphen.
pub open spec fn not_dash(c: char) -> bool {
    c != '-'
}

/// `s` with every `-` removed.
pub open spec fn without_dashes(s: Seq<char>) -> Seq<char> {
    s.filter(|c: char| not_dash(c))
}

/// The text as typed, with surrounding white space trimmed and every `-` removed.
pub open spec fn isbn_candidate(raw: Seq<char>) -> Seq<char> {
    without_dashes(trimmed(raw))
}

/// An ISBN as the lookup accepts it: 10 or 13 characters, each a digit or `X`.
pub open spec fn is_isbn_form(s: Seq<char>) -> bool {
    &&& forall|i: int| 0 <= i < s.len() ==> is_isbn_char(#[trigger] s[i])
    &&& (s.len() == 10 || s.len() == 13)
}

/// The ISBN that a lookup request carries, if its text is acceptable.
pub open spec fn spec_normalize_isbn(raw: Seq<char>) -> Option<Seq<char>> {
    let c = isbn_candidate(raw);
    if is_isbn_form(c) { Some(c) } else { None }
}

fn remove_dashes(v: &Vec<char>) -> (r: Vec<char>)
    ensures
        r@ == without_dashes(v@),
{
    let mut r: Vec<char> = Vec::new();
    let mut i: usize = 0;
    while i < v.len()
        invariant
            i <= v@.len(),
            r@ == v@.take(i as int).filter(|c: char| not_dash(c)),
        decreases v@.len() - i,
    {
        proof {
            reveal(Seq::filter);
            assert(v@.take(i + 1).drop_last() == v@.take(i as int));
        }
        if v[i] != '-' {
            r.push(v[i]);
        }
        i += 1;
    }
    assert(v@.take(v@.len() as int) == v@);
    r
}

/// Checks the typed ISBN text as the lookup endpoint does: trims it, drops
/// every `-`, and accepts it only when 10 or 13 characters remain, each a
/// decimal digit or `X`. Returns the cleaned ISBN, or `None` for a bad request.
pub fn normalize_isbn(raw: &str) -> (r: Option<String>)
    ensures
        r is Some <==> spec_normalize_isbn(raw@) is Some,
        r matches Some(s) ==> spec_normalize_isbn(raw@) == Some(s@),
        r matches Some(s) ==> (s@.len() == 10 || s@.len() == 13),
{
    let t = trim_text(raw);
    let tv = chars_of(t.as_str());
    let cv = remove_dashes(&tv);
    assert(cv@ == isbn_candidate(raw@));
    let n = cv.len();
    if n != 10 && n != 13 {
        return None;
    }
    let mut i: usize = 0;
    while i < n
        invariant
            n == cv@.len(),
            cv@ == isbn_candidate(raw@),
            n == 10 || n == 13,
            i <= n,
            forall|k: int| 0 <= k < i ==> is_isbn_char(#[trigger] cv@[k]),
        decreases n - i,
    {
        let c = cv[i];
        if !(('0' <= c && c <= '9') || c == 'X') {
            assert(!is_isbn_char(cv@[i as int]));
            return None;
        }
        i += 1;
    }
    Some(string_of(&cv))
}

/// No dash remains in a normalized ISBN, and it has no outer white space.
proof fn lemma_form_is_fixed(s: Seq<char>)
    requires
        is_isbn_form(s),
    ensures
        trimmed(s) == s,
        without_dashes(s) == s,
{
    if s.len() > 0 {
        assert(is_isbn_char(s[0]));
        assert(is_isbn_char(s.last()));
    }
    assert(!(s.len() > 0 && is_white_space(s[0])));
    assert(crate::text::trim_start(s) == s);
    assert(!(s.len() > 0 && is_white_space(s.last())));
    assert(crate::text::trim_end(s) == s);
    lemma_filter_keeps_all(s);
}

proof fn lemma_filter_keeps_all(s: Seq<char>)
    requires
        forall|i: int| 0 <= i < s.len() ==> is_isbn_char(#[trigger] s[i]),
    ensures
        without_dashes(s) == s,
    decreases s.len(),
{
    reveal(Seq::filter);
    if s.len() > 0 {
        let d = s.drop_last();
        assert forall|i: int| 0 <= i < d.len() implies is_isbn_char(#[trigger] d[i]) by {
            assert(d[i] == s[i]);
        }
        lemma_filter_keeps_all(d);
        assert(is_isbn_char(s.last()));
        assert(d.push(s.last()) == s);
    }
}

/// Normalizing is idempotent: an accepted ISBN, checked again, is accepted
/// unchanged.
pub proof fn law_normalize_isbn_idempotent(raw: Seq<char>)
    requires
        spec_normalize_isbn(raw) is Some,
    ensures
        spec_normalize_isbn(spec_normalize_isbn(raw).unwrap()) == spec_normalize_isbn(raw),
{
    let s = spec_normalize_isbn(raw).unwrap();
    lemma_form_is_fixed(s);
}

/// An accepted ISBN is exactly 10 or exactly 13 characters long, each a
/// decimal digit or `X`; any other length (such as a 12-digit barcode) is
/// refused.
pub proof fn law_accepted_isbn_shape(raw: Seq<char>)
    ensures
        spec_normalize_isbn(raw) matches Some(s) ==> {
            &&& (s.len() == 10 || s.len() == 13)
            &&& forall|i: int| 0 <= i < s.len() ==> (('0' <= #[trigger] s[i] && s[i] <= '9') || s[i] == 'X')
        },
        (isbn_candidate(raw).len() != 10 && isbn_candidate(raw).len() != 13) ==> spec_normalize_isbn(raw) is None,
{
}

/// Text that is already 10 or 13 digits or `X`, with nothing around it, is
/// accepted as it is.
pub proof fn law_plain_isbn_accepted(raw: Seq<char>)
    requires
        raw.len() == 10 || raw.len() == 13,
        forall|i: int| 0 <= i < raw.len() ==> (('0' <= #[trigger] raw[i] && raw[i] <= '9') || raw[i] == 'X'),
    ensures
        spec_normalize_isbn(raw) == Some(raw),
{
    assert(is_isbn_form(raw));
    lemma_form_is_fixed(raw);
}

} // verus!
