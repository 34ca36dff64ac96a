//! The syntax of the wire format, as the `http` crate checks it.
//!
//! Each function here hands one question to the `http` crate (or, for
//! UTF-8, to the standard library) and states what the answer is. The
//! statements are not proved: they restate what the called code does.

use vstd::prelude::*;
use vstd::utf8::{decode_utf8, valid_utf8};

verus! {

/// The characters of a method: letters, digits and
/// ``! * + - . ^ _ ` | ~``.
pub open spec fn is_method_char(c: char) -> bool {
    let n = c as u32;
    n == 33 || n == 42 || n == 43 || n == 45 || n == 46 || (48 <= n <= 57) || (65 <= n <= 90) || (94
        <= n <= 122) || n == 124 || n == 126
}

/// A method is a non-empty run of method characters.
pub open spec fn is_method(text: Seq<char>) -> bool {
    text.len() > 0 && forall|i: int| 0 <= i < text.len() ==> is_method_char(#[trigger] text[i])
}

/// The characters of a header name: letters, digits and
/// ``! " # $ % & ' * + - . ^ _ ` | ~``.
pub open spec fn is_name_char(c: char) -> bool {
    let n = c as u32;
    (33 <= n <= 39) || n == 42 || n == 43 || n == 45 || n == 46 || (48 <= n <= 57) || (65 <= n
        <= 90) || (94 <= n <= 122) || n == 124 || n == 126
}

/// The longest header name, in characters.
pub open spec fn max_name_len() -> int {
    65535
}

/// A header name is a run of one to 65535 name characters.
pub open spec fn is_name(text: Seq<char>) -> bool {
    0 < text.len() <= max_name_len() && forall|i: int|
        0 <= i < text.len() ==> is_name_char(#[trigger] text[i])
}

/// A capital letter as its small letter, any other character as itself.
pub open spec fn lower_char(c: char) -> char {
    if 65 <= c as u32 <= 90 {
        ((c as u32 + 32) as u32) as char
    } else {
        c
    }
}

/// A text with each capital letter replaced by its small letter.
pub open spec fn lowered(text: Seq<char>) -> Seq<char> {
    Seq::new(text.len(), |i: int| lower_char(text[i]))
}

/// The characters of a header value: the tab, and every character from the
/// space on but the delete character.
pub open spec fn is_value_char(c: char) -> bool {
    let n = c as u32;
    (n >= 32 && n != 127) || n == 9
}

/// A header value is a run of value characters; it may be empty.
pub open spec fn is_value(text: Seq<char>) -> bool {
    forall|i: int| 0 <= i < text.len() ==> is_value_char(#[trigger] text[i])
}

/// A status code has three digits.
pub open spec fn is_status(code: int) -> bool {
    100 <= code < 1000
}

/// What a URI names beside its path: a scheme and an authority, each of
/// which may be missing.
#[derive(Debug, Clone, PartialEq, Eq)]
pub struct UriParts {
    pub scheme: Option<String>,
    pub authority: Option<String>,
}

/// The text of an optional string.
pub open spec fn optional_text(text: Option<String>) -> Option<Seq<char>> {
    match text {
        Some(t) => Some(t@),
        None => None,
    }
}

/// The scheme and the authority that the `http` crate reads from a text;
/// `None` for a text that it does not take as a URI.
pub uninterp spec fn uri_parts(text: Seq<char>) -> Option<(Option<Seq<char>>, Option<Seq<char>>)>;

/// Asks `http::Method::from_bytes` whether a text is a method. It takes a
/// text of at least one byte in which every byte is a method character;
/// a character beyond ASCII has no such byte.
#[verifier::external_body]
pub(crate) fn method_accepted(text: &str) -> (ok: bool)
    ensures
        ok == is_method(text@),
{
    http::Method::from_bytes(text.as_bytes()).is_ok()
}

/// Reads a header name with `http::header::HeaderName::from_bytes`. It
/// takes one to 65535 bytes that are all name characters, and yields them
/// with the capital letters made small.
#[verifier::external_body]
pub(crate) fn header_name(text: &str) -> (r: Option<String>)
    ensures
        match r {
            Some(name) => is_name(text@) && name@ == lowered(text@),
            None => !is_name(text@),
        },
{
    match http::header::HeaderName::from_bytes(text.as_bytes()) {
        Ok(name) => Some(name.as_str().to_owned()),
        Err(_) => None,
    }
}

/// Asks `http::header::HeaderValue::from_bytes` whether a text is a header
/// value. It refuses the bytes below 32 other than the tab, and the byte
/// 127; every byte of a character beyond ASCII is above 127.
#[verifier::external_body]
pub(crate) fn header_value_accepted(text: &str) -> (ok: bool)
    ensures
        ok == is_value(text@),
{
    http::header::HeaderValue::from_bytes(text.as_bytes()).is_ok()
}

/// Asks `http::StatusCode::from_u16` whether a number is a status code: it
/// takes the numbers from 100 to 999.
#[verifier::external_body]
pub(crate) fn status_accepted(code: u16) -> (ok: bool)
    ensures
        ok == is_status(code as int),
{
    http::StatusCode::from_u16(code).is_ok()
}

/// Parses a URI with the `FromStr` implementation of `http::Uri`, and hands
/// out its scheme and its authority. The grammar is the crate's: the result
/// is stated by name only.
#[verifier::external_body]
pub(crate) fn parse_uri(text: &str) -> (r: Option<UriParts>)
    ensures
        uri_parts(text@) == match r {
            Some(parts) => Some((optional_text(parts.scheme), optional_text(parts.authority))),
            None => None,
        },
{
    match text.parse::<http::Uri>() {
        Ok(uri) => Some(
            UriParts {
                scheme: uri.scheme_str().map(|s| s.to_owned()),
                authority: uri.authority().map(|a| a.as_str().to_owned()),
            },
        ),
        Err(_) => None,
    }
}

/// Reads bytes as UTF-8 with `core::str::from_utf8`: the text that they
/// encode, or `None` where they encode none.
#[verifier::external_body]
pub(crate) fn utf8_text(bytes: &[u8]) -> (r: Option<&str>)
    ensures
        match r {
            Some(text) => valid_utf8(bytes@) && text@ == decode_utf8(bytes@),
            None => !valid_utf8(bytes@),
        },
{
    core::str::from_utf8(bytes).ok()
}

/// A lowered header name is a header name, and lowering it again changes
/// nothing.
pub proof fn lemma_lowered_name(text: Seq<char>)
    requires
        is_name(text),
    ensures
        is_name(lowered(text)),
        lowered(lowered(text)) == lowered(text),
{
    assert forall|i: int| 0 <= i < text.len() implies is_name_char(#[trigger] lowered(text)[i])
        && lower_char(lowered(text)[i]) == lowered(text)[i] by {
        lemma_lower_char(text[i]);
    }
    assert(lowered(lowered(text)) =~= lowered(text));
}

/// The small letter of a name character is a name character that is no
/// capital letter.
pub proof fn lemma_lower_char(c: char)
    requires
        is_name_char(c),
    ensures
        is_name_char(lower_char(c)),
        lower_char(lower_char(c)) == lower_char(c),
{
    let n = c as u32;
    if 65 <= n <= 90 {
        let m = (n + 32) as u32;
        assert(97 <= m <= 122);
        assert((m as char) as u32 == m);
    }
}

} // verus!
