//! Small text utilities: decimal numerals and runs of spaces.

use vstd::prelude::*;
use vstd::string::StringExecFns;

verus! {

/// The numeral of a single decimal digit.
pub open spec fn digit_text(digit: nat) -> Seq<char> {
    if digit == 0 {
        "0"@
    } else if digit == 1 {
        "1"@
    } else if digit == 2 {
        "2"@
    } else if digit == 3 {
        "3"@
    } else if digit == 4 {
        "4"@
    } else if digit == 5 {
        "5"@
    } else if digit == 6 {
        "6"@
    } else if digit == 7 {
        "7"@
    } else if digit == 8 {
        "8"@
    } else {
        "9"@
    }
}

/// The decimal numeral of a number, without leading zeros.
pub open spec fn decimal_text(number: nat) -> Seq<char>
    decreases number,
{
    if number < 10 {
        digit_text(number)
    } else {
        decimal_text(number / 10) + digit_text(number % 10)
    }
}

/// The numeral of a single decimal digit.
fn digit(value: u64) -> (text: &'static str)
    requires
        value < 10,
    ensures
        text@ == digit_text(value as nat),
{
    if value == 0 {
        "0"
    } else if value == 1 {
        "1"
    } else if value == 2 {
        "2"
    } else if value == 3 {
        "3"
    } else if value == 4 {
        "4"
    } else if value == 5 {
        "5"
    } else if value == 6 {
        "6"
    } else if value == 7 {
        "7"
    } else if value == 8 {
        "8"
    } else {
        "9"
    }
}

/// Writes a number as a decimal numeral, without leading zeros.
pub fn decimal(number: u64) -> (text: String)
    ensures
        text@ == decimal_text(number as nat),
    decreases number,
{
    if number < 10 {
        String::from_str(digit(number))
    } else {
        let mut text = decimal(number / 10);
        text.append(digit(number % 10));
        text
    }
}

/// A run of `count` copies of one text.
pub open spec fn repeated(unit: Seq<char>, count: nat) -> Seq<char>
    decreases count,
{
    if count == 0 {
        Seq::empty()
    } else {
        repeated(unit, (count - 1) as nat) + unit
    }
}

/// Appends `count` copies of `unit` to `output`.
pub fn push_repeated(output: &mut String, unit: &str, count: usize)
    ensures
        final(output)@ == old(output)@ + repeated(unit@, count as nat),
{
    let mut done: usize = 0;
    assert(output@ =~= old(output)@ + repeated(unit@, 0));
    while done < count
        invariant
            done <= count,
            output@ == old(output)@ + repeated(unit@, done as nat),
        decreases count - done,
    {
        output.append(unit);
        done += 1;
        assert(output@ =~= old(output)@ + repeated(unit@, done as nat));
    }
}

/// The text that `String::from_utf8_lossy` reads from bytes: the text that
/// the bytes encode in UTF-8, with U+FFFD in place of what encodes none.
pub uninterp spec fn lossy_utf8(bytes: Seq<u8>) -> Seq<char>;

/// Reads bytes with `String::from_utf8_lossy`. Not proved: that the text is
/// the one [`lossy_utf8`] names, and that bytes which are valid UTF-8 are
/// read as the text they encode.
#[verifier::external_body]
fn lossy_text(bytes: &[u8]) -> (text: String)
    ensures
        text@ == lossy_utf8(bytes@),
        vstd::utf8::valid_utf8(bytes@) ==> text@ == vstd::utf8::decode_utf8(bytes@),
{
    String::from_utf8_lossy(bytes).into_owned()
}

/// The text of the first hundred bytes, followed by `...` where there are
/// more.
pub open spec fn debug_text(bytes: Seq<u8>) -> Seq<char> {
    if bytes.len() > 100 {
        lossy_utf8(bytes.subrange(0, 100)) + "..."@
    } else {
        lossy_utf8(bytes)
    }
}

/// Writes bytes for a reader: as text, cut off after a hundred bytes.
pub fn debug_print_bytes(bytes: &[u8]) -> (text: String)
    ensures
        text@ == debug_text(bytes@),
        bytes@.len() <= 100 && vstd::utf8::valid_utf8(bytes@) ==> text@ == vstd::utf8::decode_utf8(
            bytes@,
        ),
{
    if bytes.len() > 100 {
        lossy_text(vstd::slice::slice_subrange(bytes, 0, 100)).concat("...")
    } else {
        lossy_text(bytes)
    }
}

} // verus!
