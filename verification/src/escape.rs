//! Identifier-safe and human-readable renderings of a name.
//!
//! A name that becomes part of an identifier is percent-encoded. The same name
//! inside a literal keeps its characters and is quoted instead.

use vstd::prelude::*;
use vstd::utf8::encode_utf8;

verus! {

/// Bytes that percent-encoding leaves as they are: ASCII letters, digits and `-._~`.
pub open spec fn is_unreserved(byte: u8) -> bool {
    ||| 0x30 <= byte <= 0x39
    ||| 0x41 <= byte <= 0x5a
    ||| 0x61 <= byte <= 0x7a
    ||| byte == 0x2d
    ||| byte == 0x2e
    ||| byte == 0x5f
    ||| byte == 0x7e
}

/// The uppercase hexadecimal digit for a value below sixteen.
pub open spec fn upper_hex_digit(nibble: int) -> char {
    if nibble < 10 {
        (48 + nibble) as char
    } else {
        (55 + nibble) as char
    }
}

/// One byte, percent-encoded.
pub open spec fn escaped_byte(byte: u8) -> Seq<char> {
    if is_unreserved(byte) {
        seq![byte as char]
    } else {
        seq!['%', upper_hex_digit(byte as int / 16), upper_hex_digit(byte as int % 16)]
    }
}

/// A byte sequence, percent-encoded byte by byte.
pub open spec fn percent_encoded_bytes(bytes: Seq<u8>) -> Seq<char> {
    bytes.map_values(|byte: u8| escaped_byte(byte)).flatten()
}

/// The percent-encoding of the UTF-8 form of a text.
pub open spec fn percent_encoded(text: Seq<char>) -> Seq<char> {
    percent_encoded_bytes(encode_utf8(text))
}

/// Characters that a percent-encoded text is made of.
pub open spec fn is_escaped_char(c: char) -> bool {
    ||| '0' <= c <= '9'
    ||| 'A' <= c <= 'Z'
    ||| 'a' <= c <= 'z'
    ||| c == '-'
    ||| c == '.'
    ||| c == '_'
    ||| c == '~'
    ||| c == '%'
}

/// What `{:?}` formatting makes of a string slice: the text between double
/// quotes, with the escapes of Rust's string literal syntax.
pub uninterp spec fn debug_text(text: Seq<char>) -> Seq<char>;

/// Calls `urlencoding::encode`: every byte of the UTF-8 form of `text` except ASCII
/// letters, digits and `-`, `_`, `.`, `~` becomes `%` and two uppercase
/// hexadecimal digits; those stay as they are.
#[verifier::external_body]
pub(crate) fn percent_encode(text: &str) -> (out: String)
    ensures
        out@ == percent_encoded(text@),
{
    urlencoding::encode(text).into_owned()
}

/// Formats `text` with `{:?}`, that is with `<str as core::fmt::Debug>::fmt`. The
/// contract only names the result `debug_text(text)`.
#[verifier::external_body]
pub(crate) fn debug_quote(text: &str) -> (out: String)
    ensures
        out@ == debug_text(text@),
{
    format!("{:?}", text)
}

proof fn lemma_escaped_byte_chars(byte: u8)
    ensures
        forall|k: int|
            0 <= k < escaped_byte(byte).len() ==> is_escaped_char(#[trigger] escaped_byte(byte)[k]),
{
}

/// A percent-encoded byte sequence holds only letters, digits and `-._~%`.
pub proof fn lemma_percent_encoded_bytes_chars(bytes: Seq<u8>)
    ensures
        forall|i: int|
            0 <= i < percent_encoded_bytes(bytes).len() ==> is_escaped_char(
                #[trigger] percent_encoded_bytes(bytes)[i],
            ),
    decreases bytes.len(),
{
    let parts = bytes.map_values(|byte: u8| escaped_byte(byte));
    if bytes.len() > 0 {
        lemma_escaped_byte_chars(bytes[0]);
        lemma_percent_encoded_bytes_chars(bytes.drop_first());
        assert(parts.drop_first() =~= bytes.drop_first().map_values(|byte: u8| escaped_byte(byte)));
        let head = escaped_byte(bytes[0]);
        let tail = percent_encoded_bytes(bytes.drop_first());
        assert forall|i: int| 0 <= i < percent_encoded_bytes(bytes).len() implies is_escaped_char(
            #[trigger] percent_encoded_bytes(bytes)[i],
        ) by {
            if i < head.len() {
                assert(percent_encoded_bytes(bytes)[i] == head[i]);
            } else {
                assert(percent_encoded_bytes(bytes)[i] == tail[i - head.len()]);
            }
        }
    }
}

/// A percent-encoded text holds only letters, digits and `-._~%`: in particular
/// no space and no slash.
pub proof fn lemma_percent_encoded_chars(text: Seq<char>)
    ensures
        forall|i: int|
            0 <= i < percent_encoded(text).len() ==> is_escaped_char(
                #[trigger] percent_encoded(text)[i],
            ),
        !percent_encoded(text).contains(' '),
        !percent_encoded(text).contains('/'),
{
    lemma_percent_encoded_bytes_chars(encode_utf8(text));
}

} // verus!
