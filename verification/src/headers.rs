use http::HeaderMap;
use http::HeaderValue;
use vstd::prelude::*;

use crate::text::optional_chars;

verus! {

/// The headers of a request, as the `http` crate holds them: `http::HeaderMap`.
#[verifier::external_type_specification]
#[verifier::external_body]
#[verifier::reject_recursive_types(T)]
pub struct ExHeaderMap<T>(HeaderMap<T>);

/// The value of one header: `http::HeaderValue`.
#[verifier::external_type_specification]
#[verifier::external_body]
pub struct ExHeaderValue(HeaderValue);

/// The headers of a request that can be read as text. A header map keeps each name in lower
/// case; a name is a key here where the first value stored under it is made of visible ASCII
/// characters and tabs only, and it is mapped to that value.
pub uninterp spec fn header_texts(headers: HeaderMap<HeaderValue>) -> Map<Seq<char>, Seq<char>>;

/// The lower-case form of an ASCII capital; every other character is left as it is.
pub open spec fn lower_case_char(c: char) -> char {
    if 'A' <= c && c <= 'Z' {
        ((c as u32) + 32) as char
    } else {
        c
    }
}

/// A header name with its ASCII capitals in lower case.
pub open spec fn lower_case(name: Seq<char>) -> Seq<char> {
    Seq::new(name.len(), |i: int| lower_case_char(name[i]))
}

/// Whether a character is an ASCII letter, an ASCII digit or a hyphen.
pub open spec fn is_name_char(c: char) -> bool {
    ||| 'a' <= c && c <= 'z'
    ||| 'A' <= c && c <= 'Z'
    ||| '0' <= c && c <= '9'
    ||| c == '-'
}

/// Whether a header name is short and plain: at most 64 characters, each a letter, a digit or a
/// hyphen, and at least one of them.
pub open spec fn is_plain_name(name: Seq<char>) -> bool {
    &&& 1 <= name.len() <= 64
    &&& forall|i: int| 0 <= i < name.len() ==> is_name_char(#[trigger] name[i])
}

/// What a request's headers hold under a name, whatever the case in which the name is written.
pub open spec fn header_value(texts: Map<Seq<char>, Seq<char>>, name: Seq<char>) -> Option<
    Seq<char>,
> {
    if texts.contains_key(lower_case(name)) {
        Some(texts[lower_case(name)])
    } else {
        None
    }
}

/// Looks a header up by name and reads its value as text.
///
/// Calls `HeaderMap::get` with the name as a string slice and `HeaderValue::to_str` on what it
/// finds. `get` compares names without regard to ASCII case and hands out the first value stored
/// under the name; `to_str` accepts a value made of visible ASCII characters and tabs. The
/// contract states this for plain names of at most 64 characters over [`header_texts`]: the
/// result is the text kept under the lower-case name, and `None` where there is none.
#[verifier::external_body]
pub(crate) fn header_text(headers: &HeaderMap<HeaderValue>, name: &str) -> (found: Option<String>)
    requires
        is_plain_name(name@),
    ensures
        optional_chars(found) == header_value(header_texts(*headers), name@),
{
    match headers.get(name) {
        Some(value) => match value.to_str() {
            Ok(text) => Some(text.to_owned()),
            Err(_) => None,
        },
        None => None,
    }
}

} // verus!
