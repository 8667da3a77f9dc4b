//! Building strings symbol by symbol, and how bytes are written in hex and
//! integers in decimal.

use vstd::prelude::*;

verus! {

/// The decimal digit of a value below 10.
pub open spec fn decimal_digit(value: int) -> char {
    (0x30 + value) as char
}

/// The lower-case hex digit of a value below 16.
pub open spec fn hex_digit(nibble: u8) -> char {
    if nibble < 10 {
        (0x30 + nibble) as char
    } else {
        (0x61 + nibble - 10) as char
    }
}

/// Lower-case hex: two digits for each byte, the high half first.
pub open spec fn hex_lower(bytes: Seq<u8>) -> Seq<char> {
    Seq::new(
        2 * bytes.len(),
        |i: int|
            if i % 2 == 0 {
                hex_digit(bytes[i / 2] >> 4u8)
            } else {
                hex_digit(bytes[i / 2] & 0x0fu8)
            },
    )
}

/// Whether `symbol` is a lower-case hex digit.
pub open spec fn is_hex_digit(symbol: char) -> bool {
    '0' <= symbol <= '9' || 'a' <= symbol <= 'f'
}

/// Whether `text` consists of lower-case hex digits.
pub open spec fn is_hex(text: Seq<char>) -> bool {
    forall|i: int| 0 <= i < text.len() ==> is_hex_digit(#[trigger] text[i])
}

/// Hex has two symbols for each byte, all of them lower-case hex digits.
pub proof fn lemma_hex_lower_is_hex(bytes: Seq<u8>)
    ensures
        hex_lower(bytes).len() == 2 * bytes.len(),
        is_hex(hex_lower(bytes)),
{
    assert forall|i: int| 0 <= i < 2 * bytes.len() implies is_hex_digit(
        #[trigger] hex_lower(bytes)[i],
    ) by {
        let byte = bytes[i / 2];
        assert(byte >> 4u8 < 16 && byte & 0x0fu8 < 16) by (bit_vector);
    }
}

/// A natural number in decimal, without leading zeros.
pub open spec fn digits(value: nat) -> Seq<char>
    decreases value,
{
    if value < 10 {
        seq![decimal_digit(value as int)]
    } else {
        digits(value / 10).push(decimal_digit((value % 10) as int))
    }
}

/// An integer in decimal: a minus sign for a negative one, then its
/// magnitude.
pub open spec fn decimal(value: int) -> Seq<char> {
    if value < 0 {
        seq!['-'] + digits((-value) as nat)
    } else {
        digits(value as nat)
    }
}

/// `String::push`: appends one symbol to the end of `s`.
#[verifier::external_body]
pub(crate) fn push_char(s: &mut String, c: char)
    ensures
        final(s)@ == old(s)@.push(c),
{
    s.push(c)
}

/// Appends `value` in decimal to `out`.
pub fn push_digits(out: &mut String, value: u64)
    ensures
        final(out)@ == old(out)@ + digits(value as nat),
    decreases value,
{
    if value >= 10 {
        push_digits(out, value / 10);
    }
    let digit: u8 = (value % 10) as u8;
    push_char(out, (0x30 + digit) as char);
}

/// Appends `value` in decimal to `out`, with a minus sign where it is
/// negative.
pub fn push_decimal(out: &mut String, value: i64)
    ensures
        final(out)@ == old(out)@ + decimal(value as int),
{
    if value < 0 {
        push_char(out, '-');
        let magnitude: u64 = (-(value + 1)) as u64 + 1;
        push_digits(out, magnitude);
    } else {
        push_digits(out, value as u64);
    }
}

} // verus!
