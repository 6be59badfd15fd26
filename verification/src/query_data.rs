//! Query data: the fields of a query to a provider, in
//! `application/x-www-form-urlencoded` syntax.

use vstd::prelude::*;
use vstd::utf8::encode_utf8;

verus! {

/// Whether a byte is written as it is: `*`, `-`, `.`, `_`, a digit or an
/// ASCII letter.
pub open spec fn written_plainly(byte: u8) -> bool {
    ||| byte == 0x2a
    ||| byte == 0x2d
    ||| byte == 0x2e
    ||| byte == 0x5f
    ||| 0x30 <= byte <= 0x39
    ||| 0x41 <= byte <= 0x5a
    ||| 0x61 <= byte <= 0x7a
}

/// The hexadecimal digit, in upper case, for a number below 16.
pub open spec fn hex_digit(value: int) -> char {
    if value < 10 {
        ((0x30 + value) as u8) as char
    } else {
        ((0x41 + value - 10) as u8) as char
    }
}

/// How one byte is written: as it is, a space as `+`, and any other as `%`
/// and its two hexadecimal digits.
pub open spec fn form_encoded_byte(byte: u8) -> Seq<char> {
    if written_plainly(byte) {
        seq![byte as char]
    } else if byte == 0x20 {
        seq!['+']
    } else {
        seq!['%', hex_digit(byte as int / 16), hex_digit(byte as int % 16)]
    }
}

/// How bytes are written, one after the other.
pub open spec fn form_encoded_bytes(bytes: Seq<u8>) -> Seq<char>
    decreases bytes.len(),
{
    if bytes.len() == 0 {
        Seq::empty()
    } else {
        form_encoded_byte(bytes[0]) + form_encoded_bytes(bytes.drop_first())
    }
}

/// A single name and value in `application/x-www-form-urlencoded` syntax:
/// the bytes of the name in UTF-8, `=`, and the bytes of the value.
pub open spec fn form_encoded_pair(name: Seq<char>, value: Seq<char>) -> Seq<char> {
    form_encoded_bytes(encode_utf8(name)) + seq!['='] + form_encoded_bytes(encode_utf8(value))
}

/// Writes one name and value with `form_urlencoded::Serializer::append_pair`
/// into an empty serializer and takes what it wrote. Not proved: that the
/// serializer writes the pair as [`form_encoded_pair`] says.
#[verifier::external_body]
pub(crate) fn encode_pair(name: &str, value: &str) -> (encoded: String)
    ensures
        encoded@ == form_encoded_pair(name@, value@),
{
    form_urlencoded::Serializer::new(String::new()).append_pair(name, value).finish()
}

} // verus!
