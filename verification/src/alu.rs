//! The arithmetic of the register instructions: eight-bit results with the
//! flag that goes to `VF`.

use vstd::prelude::*;

verus! {

/// The sum of two bytes modulo 256, and whether the full sum exceeded 255.
pub fn add_with_carry(left: u8, right: u8) -> (result: (u8, bool))
    ensures
        result.0 == (left + right) % 256,
        result.1 == (left + right > 255),
{
    let sum: u16 = left as u16 + right as u16;
    ((sum % 256) as u8, sum > 255)
}

/// The difference of two bytes modulo 256, and whether nothing was borrowed:
/// whether `left` is at least `right`.
pub fn subtract_with_borrow(left: u8, right: u8) -> (result: (u8, bool))
    ensures
        result.0 == (left - right) % 256,
        result.1 == (left >= right),
{
    if left >= right {
        (left - right, true)
    } else {
        let difference: u16 = 256 + left as u16 - right as u16;
        (difference as u8, false)
    }
}

/// The byte shifted right by one place, and whether its lowest bit, the one
/// shifted out, was set.
pub fn shift_right(value: u8) -> (result: (u8, bool))
    ensures
        result.0 == value / 2,
        result.1 == (value % 2 == 1),
{
    assert(value >> 1 == value / 2) by (bit_vector);
    assert((value & 1 == 1) == (value % 2 == 1)) by (bit_vector);
    (value >> 1, value & 1 == 1)
}

/// The byte shifted left by one place, and whether its highest bit, the one
/// shifted out, was set.
pub fn shift_left(value: u8) -> (result: (u8, bool))
    ensures
        result.0 == (value * 2) % 256,
        result.1 == (value >= 128),
{
    assert(value << 1 == (value * 2) % 256) by (bit_vector);
    assert((value & 0x80 == 0x80) == (value >= 128)) by (bit_vector);
    (value << 1, value & 0x80 == 0x80)
}

/// The three decimal digits of a byte: hundreds, tens, units.
pub fn decimal_digits(value: u8) -> (digits: (u8, u8, u8))
    ensures
        digits.0 == value / 100,
        digits.1 == (value / 10) % 10,
        digits.2 == value % 10,
        value == digits.0 * 100 + digits.1 * 10 + digits.2,
{
    (value / 100, (value / 10) % 10, value % 10)
}

} // verus!
