//! Reading response headers out of reqwest's `HeaderMap`.
use vstd::prelude::*;

use reqwest::header::HeaderMap;

use crate::text::{char_vec, string_of_range, trim_class, trim_range, trimmed, CharClass};

verus! {

#[verifier::external_type_specification]
#[verifier::external_body]
#[verifier::reject_recursive_types(T)]
pub struct ExHeaderMap<T>(reqwest::header::HeaderMap<T>);

#[verifier::external_type_specification]
#[verifier::external_body]
pub struct ExHeaderValue(reqwest::header::HeaderValue);

/// What a header map holds: for each header name, in lowercase, the bytes of the first value
/// stored under it.
pub uninterp spec fn header_fields(h: HeaderMap) -> Map<Seq<char>, Seq<u8>>;

/// Bytes that a header value may hold to be read as text: visible ASCII and tab.
pub open spec fn visible_ascii(b: Seq<u8>) -> bool {
    forall|i: int| 0 <= i < b.len() ==> (32 <= #[trigger] b[i] < 127 || b[i] == 9)
}

pub open spec fn ascii_chars(b: Seq<u8>) -> Seq<char> {
    Seq::new(b.len(), |i: int| b[i] as char)
}

/// A header name as the library asks for it: lowercase letters, digits and `-`.
pub open spec fn lowercase_token(name: Seq<char>) -> bool {
    name.len() > 0 && forall|i: int|
        0 <= i < name.len() ==> ({
            let u = #[trigger] name[i] as u32;
            (97 <= u <= 122) || (48 <= u <= 57) || u == 45
        })
}

/// The first value of header `name` as text, where it is visible ASCII.
pub open spec fn header_text(h: HeaderMap, name: Seq<char>) -> Option<Seq<char>> {
    if header_fields(h).contains_key(name) && visible_ascii(header_fields(h)[name]) {
        Some(ascii_chars(header_fields(h)[name]))
    } else {
        None
    }
}

/// Relies on `HeaderMap::get`, which gives the first value stored under a name (names are
/// matched without regard to ASCII case), and `HeaderValue::to_str`, which succeeds exactly
/// when every byte is visible ASCII or a tab and then reads the bytes as they are.
#[verifier::external_body]
fn header_str(headers: &HeaderMap, name: &str) -> (r: Option<String>)
    requires
        lowercase_token(name@),
    ensures
        r matches Some(t) ==> header_fields(*headers).contains_key(name@) && visible_ascii(
            header_fields(*headers)[name@],
        ) && t@ == ascii_chars(header_fields(*headers)[name@]),
        r is None ==> !header_fields(*headers).contains_key(name@) || !visible_ascii(
            header_fields(*headers)[name@],
        ),
{
    headers.get(name).and_then(|v| v.to_str().ok()).map(|s| s.to_string())
}

/// The text of header `name`, exactly as sent.
pub fn raw_header(headers: &HeaderMap, name: &str) -> (r: Option<String>)
    requires
        lowercase_token(name@),
    ensures
        r matches Some(t) ==> header_text(*headers, name@) == Some(t@),
        r is None ==> header_text(*headers, name@) is None,
{
    header_str(headers, name)
}

/// A header's text with surrounding double quotes, then surrounding white space, removed.
pub open spec fn header_value(h: HeaderMap, name: Seq<char>) -> Option<Seq<char>> {
    match header_text(h, name) {
        Some(t) => Some(trimmed(trim_class(t, CharClass::Quote))),
        None => None,
    }
}

/// The value of header `name`, with surrounding quotes and white space removed.
pub fn header_to_string(headers: &HeaderMap, name: &str) -> (r: Option<String>)
    requires
        lowercase_token(name@),
    ensures
        r matches Some(t) ==> header_value(*headers, name@) == Some(t@),
        r is None ==> header_value(*headers, name@) is None,
{
    match header_str(headers, name) {
        None => None,
        Some(t) => {
            let v = char_vec(t.as_str());
            let (a, b) = trim_range(&v, 0, v.len(), CharClass::Quote);
            let (c, d) = trim_range(&v, a, b, CharClass::WhiteSpace);
            assert(v@.subrange(0, v@.len() as int) == v@);
            Some(string_of_range(&v, c, d))
        },
    }
}

} // verus!
