//! Reading request and response headers.

use axum::http::HeaderMap;
use vstd::prelude::*;

verus! {

/// `http::HeaderMap`, a multimap from header names to values.
#[verifier::external_type_specification]
#[verifier::external_body]
#[verifier::reject_recursive_types(T)]
pub struct ExHeaderMap<T>(axum::http::HeaderMap<T>);

/// `http::HeaderValue`, the bytes of one value of a header.
#[verifier::external_type_specification]
#[verifier::external_body]
pub struct ExHeaderValue(axum::http::HeaderValue);

/// The headers that a map holds: for each name, in lower case, the bytes of its
/// values in the order in which they were added, at least one.
pub uninterp spec fn header_values(headers: HeaderMap) -> Map<Seq<char>, Seq<Seq<u8>>>;

/// Whether a header name is written without upper-case letters.
pub open spec fn lower_case_name(name: Seq<char>) -> bool {
    forall|i: int| 0 <= i < name.len() ==> !('A' <= #[trigger] name[i] <= 'Z')
}

/// The first value of a header, if there is one.
pub open spec fn first_value(headers: HeaderMap, name: Seq<char>) -> Option<Seq<u8>> {
    if header_values(headers).contains_key(name) {
        Some(header_values(headers)[name][0])
    } else {
        None
    }
}

/// `HeaderMap::get`: the first value of the header, or `None` where the map has
/// no header of that name.
#[verifier::external_body]
fn header_bytes(headers: &HeaderMap, name: &str) -> (value: Option<Vec<u8>>)
    requires
        lower_case_name(name@),
    ensures
        match value {
            Some(bytes) => header_values(*headers).contains_key(name@) && header_values(
                *headers,
            )[name@][0] == bytes@,
            None => !header_values(*headers).contains_key(name@),
        },
{
    headers.get(name).map(|value| value.as_bytes().to_vec())
}

/// Whether a byte is printable ASCII or a tab: what a header value may hold to
/// be read as text.
pub open spec fn visible(b: u8) -> bool {
    32 <= b < 127 || b == 9
}

/// The text of a header value, if every byte of it is visible.
pub open spec fn value_text(bytes: Seq<u8>) -> Option<Seq<char>> {
    if forall|i: int| 0 <= i < bytes.len() ==> visible(#[trigger] bytes[i]) {
        Some(bytes.map_values(|b: u8| b as char))
    } else {
        None
    }
}

/// The text of the first value of a header, if there is one and it is text.
pub open spec fn header_text(headers: HeaderMap, name: Seq<char>) -> Option<Seq<char>> {
    match first_value(headers, name) {
        Some(bytes) => value_text(bytes),
        None => None,
    }
}

/// The text of a header value.
pub fn text_of_value(bytes: &Vec<u8>) -> (text: Option<String>)
    ensures
        match text {
            Some(t) => value_text(bytes@) == Some(t@),
            None => value_text(bytes@) is None,
        },
{
    let mut text = String::new();
    let mut i: usize = 0;
    while i < bytes.len()
        invariant
            i <= bytes@.len(),
            forall|k: int| 0 <= k < i ==> visible(#[trigger] bytes@[k]),
            text@ == bytes@.take(i as int).map_values(|b: u8| b as char),
        decreases bytes@.len() - i,
    {
        let b: u8 = bytes[i];
        if !((32 <= b && b < 127) || b == 9) {
            assert(!visible(bytes@[i as int]));
            return None;
        }
        let ghost before = text@;
        text.push(b as char);
        assert(bytes@.take(i + 1).map_values(|b: u8| b as char) =~= before.push(b as char));
        i = i + 1;
    }
    assert(bytes@.take(bytes@.len() as int) =~= bytes@);
    Some(text)
}

/// The text of the first value of a header.
pub fn read_header(headers: &HeaderMap, name: &str) -> (text: Option<String>)
    requires
        lower_case_name(name@),
    ensures
        match text {
            Some(t) => header_text(*headers, name@) == Some(t@),
            None => header_text(*headers, name@) is None,
        },
{
    match header_bytes(headers, name) {
        Some(bytes) => text_of_value(&bytes),
        None => None,
    }
}

/// A header value is read as text, byte for byte, if it is printable ASCII and
/// tabs throughout, and not at all otherwise.
pub proof fn law_text_of_a_value(bytes: Vec<u8>, text: Option<String>)
    requires
        call_ensures(text_of_value, (&bytes,), text),
    ensures
        (forall|i: int|
            0 <= i < bytes@.len() ==> #[trigger] bytes@[i] == 9 || 32 <= bytes@[i] <= 126) ==> {
            &&& text is Some && text->0@.len() == bytes@.len()
            &&& forall|i: int| 0 <= i < bytes@.len() ==> #[trigger] text->0@[i] == bytes@[i] as char
        },
        (exists|i: int|
            0 <= i < bytes@.len() && #[trigger] bytes@[i] != 9 && !(32 <= bytes@[i] <= 126))
            ==> text is None,
{
    if exists|i: int|
        0 <= i < bytes@.len() && #[trigger] bytes@[i] != 9 && !(32 <= bytes@[i] <= 126) {
        let i = choose|i: int|
            0 <= i < bytes@.len() && #[trigger] bytes@[i] != 9 && !(32 <= bytes@[i] <= 126);
        assert(!visible(bytes@[i]));
    } else {
        assert forall|i: int| 0 <= i < bytes@.len() implies visible(#[trigger] bytes@[i]) by {
            assert(bytes@[i] == 9 || 32 <= bytes@[i] <= 126);
        }
        assert(value_text(bytes@) == Some(bytes@.map_values(|b: u8| b as char)));
    }
}

/// The text of a header is that of its first value; without the header there is
/// none.
pub proof fn law_first_value_is_read(
    headers: HeaderMap,
    name: &str,
    first: Vec<u8>,
    text: Option<String>,
    read: Option<String>,
)
    requires
        call_ensures(read_header, (&headers, name), read),
        header_values(headers).contains_key(name@) ==> first@ == header_values(headers)[name@][0],
        call_ensures(text_of_value, (&first,), text),
    ensures
        header_values(headers).contains_key(name@) ==> (read is Some <==> text is Some) && (
        read is Some ==> read->0@ == text->0@),
        !header_values(headers).contains_key(name@) ==> read is None,
{
}

} // verus!
