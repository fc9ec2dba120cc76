//! Digit encoder: maps a two-digit decimal value to the single byte whose
//! hexadecimal representation shows the same two digits, so that a
//! seven-segment decoder driven by the byte's two nibbles renders the
//! decimal value.

use vstd::prelude::*;

verus! {

/// The byte that displays `number` on a two-nibble seven-segment decoder:
/// the tens digit in the high nibble, the units digit in the low nibble.
pub open spec fn hex_lookalike(number: u8) -> u8
    recommends
        number <= 99,
{
    ((number as int / 10) * 16 + number as int % 10) as u8
}

/// The decimal value read off a byte's two hex digits: the high nibble as
/// the tens digit, the low nibble as the units digit.
pub open spec fn nibbles_as_decimal(byte: u8) -> int {
    (byte as int / 16) * 10 + byte as int % 16
}

/// Encodes a two-digit decimal value as the byte whose hexadecimal text is
/// visually identical to it (for example, decimal 59 becomes byte 0x59).
///
/// A value above 99 is a caller programming error; the precondition makes it
/// a verification-time error for every verified caller, so the function
/// itself never sees one.
pub fn to_hex_lookalike(number: u8) -> (byte: u8)
    requires
        number <= 99,
    ensures
        byte == hex_lookalike(number),
        byte as int / 16 == number as int / 10,
        byte as int % 16 == number as int % 10,
        0 <= byte as int / 16 <= 9,
        0 <= byte as int % 16 <= 9,
{
    let byte = (number / 10) * 16 + number % 10;
    proof {
        vstd::arithmetic::div_mod::lemma_fundamental_div_mod_converse(
            byte as int,
            16,
            number as int / 10,
            number as int % 10,
        );
    }
    byte
}

/// Law: reading the encoded byte's two hex digits back as decimal digits
/// recovers the encoded value exactly.
pub proof fn lemma_round_trip(number: u8)
    requires
        number <= 99,
    ensures
        nibbles_as_decimal(hex_lookalike(number)) == number,
{
    let tens = number as int / 10;
    let units = number as int % 10;
    vstd::arithmetic::div_mod::lemma_fundamental_div_mod(number as int, 10);
    vstd::arithmetic::div_mod::lemma_fundamental_div_mod_converse(
        hex_lookalike(number) as int,
        16,
        tens,
        units,
    );
}

} // verus!
