//! What the HTTP layer accepts as a header name, a header value and a
//! status code.
//!
//! The checks themselves are made by `hyper`. The three functions at the
//! end of this module call it, and their contracts are taken on trust:
//! they restate, over the spec functions below, what `hyper` does.

use vstd::prelude::*;

verus! {

/// Longest header name that is accepted, in characters.
pub const MAX_NAME_LEN: usize = 65535;

/// The characters a header name may hold: letters, digits and
/// ``! " # $ % & ' * + - . ^ _ ` | ~``.
pub open spec fn is_name_char(c: char) -> bool {
    ||| 'a' <= c <= 'z'
    ||| 'A' <= c <= 'Z'
    ||| '0' <= c <= '9'
    ||| c == '!'
    ||| c == '"'
    ||| c == '#'
    ||| c == '$'
    ||| c == '%'
    ||| c == '&'
    ||| c == '\''
    ||| c == '*'
    ||| c == '+'
    ||| c == '-'
    ||| c == '.'
    ||| c == '^'
    ||| c == '_'
    ||| c == '`'
    ||| c == '|'
    ||| c == '~'
}

/// An upper-case ASCII letter becomes its lower-case form; any other
/// character stays.
pub open spec fn lower_case(c: char) -> char {
    if 'A' <= c <= 'Z' {
        ((c as u8) + 32) as char
    } else {
        c
    }
}

/// A header name: between one and [`MAX_NAME_LEN`] name characters.
pub open spec fn is_header_name(text: Seq<char>) -> bool {
    &&& 1 <= text.len() <= MAX_NAME_LEN
    &&& forall|i: int| 0 <= i < text.len() ==> is_name_char(#[trigger] text[i])
}

/// The canonical form of a header name: the same name in lower case.
pub open spec fn canonical_name(text: Seq<char>) -> Seq<char> {
    text.map_values(|c: char| lower_case(c))
}

/// Whether a name is already in canonical form.
pub open spec fn is_canonical_name(text: Seq<char>) -> bool {
    is_header_name(text) && canonical_name(text) == text
}

/// The characters a header value may hold: anything but the ASCII control
/// characters, with the tab allowed.
pub open spec fn is_value_char(c: char) -> bool {
    c == '\t' || (' ' <= c && c != '\x7f')
}

/// A header value: any run of value characters, the empty one included.
pub open spec fn is_header_value(text: Seq<char>) -> bool {
    forall|i: int| 0 <= i < text.len() ==> is_value_char(#[trigger] text[i])
}

/// A status code has three digits.
pub open spec fn is_status_code(code: u16) -> bool {
    100 <= code <= 999
}

/// Parses a header name with `hyper::header::HeaderName::from_bytes` and
/// hands back the name as the parsed value spells it.
///
/// Trusted. The outside function takes the bytes of the text. It turns
/// down an empty input and one of more than 65535 bytes. It maps every
/// byte through a table of 256 entries, in which a name character stands
/// for itself, an upper-case letter for its lower-case form, and every
/// other byte for zero, and it turns down an input with a byte that maps
/// to zero. What is left is the input in lower case. A character outside
/// ASCII is encoded in bytes from 128 on, none of which the table admits,
/// so counting characters and counting bytes come to the same here. The
/// quotation mark is a name character in this table.
#[verifier::external_body]
pub(crate) fn parse_header_name(text: &str) -> (parsed: Option<String>)
    ensures
        parsed is Some <==> is_header_name(text@),
        parsed matches Some(name) ==> name@ == canonical_name(text@),
{
    match hyper::header::HeaderName::from_bytes(text.as_bytes()) {
        Ok(name) => Some(name.as_str().to_string()),
        Err(_) => None,
    }
}

/// Asks `hyper::header::HeaderValue::from_str` whether a text can be sent
/// as a header value.
///
/// Trusted. The outside function walks the bytes of the text and turns
/// the text down at the first byte that is below 32 and no tab, or that
/// is 127. Bytes from 128 on pass, and every character outside ASCII is
/// made of such bytes, so the rule on bytes is the rule on characters.
#[verifier::external_body]
pub(crate) fn accepts_header_value(text: &str) -> (accepted: bool)
    ensures
        accepted == is_header_value(text@),
{
    hyper::header::HeaderValue::from_str(text).is_ok()
}

/// Asks `hyper::StatusCode::from_u16` whether a number is a status code.
///
/// Trusted. The outside function turns down what is below 100 or not
/// below 1000, and nothing else.
#[verifier::external_body]
pub(crate) fn accepts_status(code: u16) -> (accepted: bool)
    ensures
        accepted == is_status_code(code),
{
    hyper::StatusCode::from_u16(code).is_ok()
}

} // verus!
