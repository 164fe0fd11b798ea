//! Links and form targets built from book ids and search text.
use vstd::prelude::*;
use vstd::arithmetic::power::pow;
use vstd::string::StringSliceAdditionalSpecFns;
use crate::text::{decimal, push_decimal};

verus! {

/// A byte that URL encoding leaves as it is: an ASCII letter or digit,
/// `-`, `.`, `_` or `~`.
pub open spec fn is_url_safe(b: u8) -> bool {
    (48 <= b <= 57) || (65 <= b <= 90) || (97 <= b <= 122) || b == 45 || b == 46 || b == 95 || b == 126
}

/// The upper-case hexadecimal digit for `d < 16`.
pub open spec fn hex_upper(d: int) -> char {
    if d < 10 { crate::text::digit_char(d as nat) }
    else if d == 10 { 'A' }
    else if d == 11 { 'B' }
    else if d == 12 { 'C' }
    else if d == 13 { 'D' }
    else if d == 14 { 'E' }
    else { 'F' }
}

/// The lower-case hexadecimal digit for `d < 16`.
pub open spec fn hex_lower(d: int) -> char {
    if d < 10 { crate::text::digit_char(d as nat) }
    else if d == 10 { 'a' }
    else if d == 11 { 'b' }
    else if d == 12 { 'c' }
    else if d == 13 { 'd' }
    else if d == 14 { 'e' }
    else { 'f' }
}

/// URL encoding of a byte: itself when safe, else `%` and two upper-case hex digits.
pub open spec fn encode_byte(b: u8) -> Seq<char> {
    if is_url_safe(b) {
        seq![b as char]
    } else {
        seq!['%', hex_upper(b as int / 16), hex_upper(b as int % 16)]
    }
}

/// URL encoding of a byte sequence, byte by byte.
pub open spec fn percent_encoded(bytes: Seq<u8>) -> Seq<char>
    decreases bytes.len(),
{
    if bytes.len() == 0 {
        Seq::empty()
    } else {
        encode_byte(bytes[0]) + percent_encoded(bytes.drop_first())
    }
}

/// Percent-encodes the UTF-8 bytes of `s`.
///
/// Calls `urlencoding::encode`, which keeps ASCII letters, digits, `-`, `.`,
/// `_` and `~` and writes every other byte as `%` followed by two upper-case
/// hex digits; trusted to do exactly that.
#[verifier::external_body]
fn url_encode(s: &str) -> (r: String)
    ensures
        r@ == percent_encoded(s.spec_bytes()),
{
    urlencoding::encode(s).into_owned()
}

/// Hex digit `k` (0 to 31, most significant first) of a 128-bit id.
pub open spec fn id_digit(id: u128, k: int) -> char {
    hex_lower((id as int / pow(16, (31 - k) as nat)) % 16)
}

/// The hyphenated lower-case form of a UUID, 8-4-4-4-12 hex digits.
pub open spec fn hyphenated(id: u128) -> Seq<char> {
    Seq::new(36, |i: int|
        if i == 8 || i == 13 || i == 18 || i == 23 {
            '-'
        } else if i < 8 {
            id_digit(id, i)
        } else if i < 13 {
            id_digit(id, i - 1)
        } else if i < 18 {
            id_digit(id, i - 2)
        } else if i < 23 {
            id_digit(id, i - 3)
        } else {
            id_digit(id, i - 4)
        }
    )
}

/// The text of a book id.
///
/// Calls `uuid::Uuid::from_u128` and its `Display`, which prints the 32 hex
/// digits of the id in lower case, most significant first, grouped 8-4-4-4-12
/// with hyphens; trusted to do exactly that.
#[verifier::external_body]
fn id_text(id: u128) -> (r: String)
    ensures
        r@ == hyphenated(id),
{
    uuid::Uuid::from_u128(id).to_string()
}

/// The page of the book with this id.
pub open spec fn book_path_spec(id: u128) -> Seq<char> {
    "/books/"@ + hyphenated(id)
}

/// The page of a book: `/books/{id}`.
pub fn book_path(id: u128) -> (r: String)
    ensures
        r@ == book_path_spec(id),
{
    let mut r = String::from_str("/books/");
    let t = id_text(id);
    r.append(t.as_str());
    r
}

/// Where a book's "Read Again" form posts: `/books/{id}/read-again`.
pub fn read_again_path(id: u128) -> (r: String)
    ensures
        r@ == book_path_spec(id) + "/read-again"@,
{
    let mut r = book_path(id);
    r.append("/read-again");
    r
}

/// The search part of a library link: `&q=` and the encoded search, if any.
pub open spec fn search_suffix(search: Option<Seq<u8>>) -> Seq<char> {
    match search {
        Some(bytes) => "&q="@ + percent_encoded(bytes),
        None => Seq::empty(),
    }
}

/// The UTF-8 bytes of an optional search text.
pub open spec fn search_bytes(search: Option<&str>) -> Option<Seq<u8>> {
    match search {
        Some(s) => Some(s.spec_bytes()),
        None => None,
    }
}

/// A page of the library listing, keeping the search.
pub open spec fn library_href_spec(page: int, search: Option<&str>) -> Seq<char> {
    "/library?page="@ + decimal(page) + search_suffix(search_bytes(search))
}

/// The link to page `page` of the library listing, keeping the search text.
pub fn library_href(page: u32, search: Option<&str>) -> (r: String)
    ensures
        r@ == library_href_spec(page as int, search),
{
    let mut r = String::from_str("/library?page=");
    push_decimal(&mut r, page as i64);
    match search {
        Some(q) => {
            r.append("&q=");
            let e = url_encode(q);
            r.append(e.as_str());
        },
        None => {},
    }
    r
}

} // verus!
