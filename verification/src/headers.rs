//! The HTTP header types that authentication writes into, as the `http`
//! crate (re-exported by axum) defines them, and what the library relies on
//! of them.
use vstd::prelude::*;
use vstd::utf8::encode_utf8;

use axum::http::header::{InvalidHeaderName, InvalidHeaderValue};
use axum::http::{HeaderMap, HeaderName, HeaderValue};

verus! {

#[verifier::external_type_specification]
#[verifier::external_body]
pub struct ExHeaderName(HeaderName);

#[verifier::external_type_specification]
#[verifier::external_body]
pub struct ExHeaderValue(HeaderValue);

#[verifier::external_type_specification]
#[verifier::external_body]
pub struct ExInvalidHeaderName(InvalidHeaderName);

#[verifier::external_type_specification]
#[verifier::external_body]
pub struct ExInvalidHeaderValue(InvalidHeaderValue);

#[verifier::external_type_specification]
#[verifier::external_body]
#[verifier::reject_recursive_types(T)]
pub struct ExHeaderMap<T>(HeaderMap<T>);

/// What a header name holds: its characters, as `HeaderName::as_str` shows them.
pub uninterp spec fn header_name_text(name: HeaderName) -> Seq<char>;

/// What a header value holds: its bytes, as `HeaderValue::as_bytes` shows them.
pub uninterp spec fn header_value_bytes(value: HeaderValue) -> Seq<u8>;

/// What a header map holds: for the text of each header name in it, the
/// bytes of its values in order.
pub uninterp spec fn header_entries(map: HeaderMap<HeaderValue>) -> Map<Seq<char>, Seq<Seq<u8>>>;

/// The most distinct header names a map may hold before an insertion, so that
/// the insertion cannot outgrow the map's fixed maximum size.
pub open spec fn insert_capacity() -> nat {
    6553
}

/// A `tchar` of RFC 9110: a letter, a digit or one of ``!#$%&'*+-.^_`|~``.
pub open spec fn is_token_char(c: char) -> bool {
    ||| 'a' <= c <= 'z'
    ||| 'A' <= c <= 'Z'
    ||| '0' <= c <= '9'
    ||| c == '!'
    ||| c == '#'
    ||| c == '$'
    ||| c == '%'
    ||| c == '&'
    ||| c == '\''
    ||| c == '*'
    ||| c == '+'
    ||| c == '-'
    ||| c == '.'
    ||| c == '^'
    ||| c == '_'
    ||| c == '`'
    ||| c == '|'
    ||| c == '~'
}

/// Whether `s` can name a header: one to 65535 token characters.
pub open spec fn is_valid_header_name(s: Seq<char>) -> bool {
    &&& 1 <= s.len() <= 65535
    &&& forall|i: int| 0 <= i < s.len() ==> is_token_char(#[trigger] s[i])
}

/// `c` with an upper-case ASCII letter turned to lower case.
pub open spec fn ascii_lowercase(c: char) -> char {
    if 'A' <= c <= 'Z' {
        ((c as u32) + 32) as char
    } else {
        c
    }
}

/// The text of the header name that `s` parses to: `s` in lower case.
pub open spec fn header_name_for(s: Seq<char>) -> Seq<char> {
    s.map_values(|c: char| ascii_lowercase(c))
}

/// Whether `c` may stand in a header value: a tab, or any character from
/// space upwards but DEL.
pub open spec fn is_header_value_char(c: char) -> bool {
    c == '\t' || (c as u32 >= 32 && c as u32 != 127)
}

/// Whether `s` can be a header value.
pub open spec fn is_valid_header_value(s: Seq<char>) -> bool {
    forall|i: int| 0 <= i < s.len() ==> is_header_value_char(#[trigger] s[i])
}

/// Parses `s` with `HeaderName`'s `FromStr`. Claimed from the `http` source:
/// it succeeds exactly on one to 65535 token characters, and the name's text
/// is `s` in lower case.
#[verifier::external_body]
pub(crate) fn parse_header_name(s: &str) -> (r: Result<HeaderName, InvalidHeaderName>)
    ensures
        r is Ok <==> is_valid_header_name(s@),
        r matches Ok(name) ==> header_name_text(name) == header_name_for(s@),
{
    s.parse::<HeaderName>()
}

/// Parses `s` with `HeaderValue`'s `FromStr`. Claimed from the `http` source:
/// it succeeds exactly when every byte is a tab or at least 32 and not 127
/// (so on every character but the ASCII controls other than tab), and the
/// value holds the UTF-8 bytes of `s`.
#[verifier::external_body]
pub(crate) fn parse_header_value(s: &str) -> (r: Result<HeaderValue, InvalidHeaderValue>)
    ensures
        r is Ok <==> is_valid_header_value(s@),
        r matches Ok(value) ==> header_value_bytes(value) == encode_utf8(s@),
{
    s.parse::<HeaderValue>()
}

/// Calls `HeaderMap::insert`. Claimed from the `http` source: afterwards the
/// name holds the one new value, all its earlier values gone, and no other
/// name changes. The call panics when the map would outgrow its maximum size,
/// which `requires` rules out. What the call returns (the first earlier
/// value) is dropped.
#[verifier::external_body]
pub(crate) fn header_map_insert(map: &mut HeaderMap<HeaderValue>, name: HeaderName, value: HeaderValue)
    requires
        header_entries(*old(map)).dom().len() <= insert_capacity(),
    ensures
        header_entries(*final(map)) == header_entries(*old(map)).insert(
            header_name_text(name),
            seq![header_value_bytes(value)],
        ),
{
    map.insert(name, value);
}

/// Calls `HeaderMap::keys_len`. Claimed from the `http` source: the number
/// of distinct header names in the map.
#[verifier::external_body]
pub(crate) fn header_name_count(map: &HeaderMap<HeaderValue>) -> (r: usize)
    ensures
        r == header_entries(*map).dom().len(),
{
    map.keys_len()
}

/// Whether `map` holds few enough header names that one more insertion
/// cannot outgrow its maximum size.
pub fn has_room_for_header(map: &HeaderMap<HeaderValue>) -> (r: bool)
    ensures
        r == (header_entries(*map).dom().len() <= insert_capacity()),
{
    header_name_count(map) <= 6553
}

/// Calls `HeaderMap::remove` with a name given as text. Claimed from the
/// `http` source: for a valid name of at most 64 characters, the map loses
/// that name (taken in lower case) and all its values, and nothing else. What
/// the call returns (the first removed value) is dropped.
#[verifier::external_body]
pub(crate) fn header_map_remove(map: &mut HeaderMap<HeaderValue>, name: &str)
    requires
        is_valid_header_name(name@),
        name@.len() <= 64,
    ensures
        header_entries(*final(map)) == header_entries(*old(map)).remove(header_name_for(name@)),
{
    map.remove(name);
}

} // verus!
