use vstd::prelude::*;

use crate::Byte;

verus! {

/// Wrapping addition of two bytes. Returns the sum modulo 256 together with
/// the carry flag: 1 exactly when the unsigned sum overflows eight bits.
pub fn add(left: Byte, right: &Byte) -> (r: (Byte, Byte))
    ensures
        r.0 == (left + *right) % 256,
        r.1 == (if left + *right > 255 { 1u8 } else { 0u8 }),
{
    let sum: u16 = left as u16 + *right as u16;
    if sum > 255 {
        ((sum % 256) as u8, 1)
    } else {
        (sum as u8, 0)
    }
}

/// Wrapping subtraction of two bytes. Returns the difference modulo 256
/// together with the no-borrow flag: 1 exactly when the subtraction does not
/// underflow.
pub fn sub(left: Byte, right: &Byte) -> (r: (Byte, Byte))
    ensures
        r.0 == (256 + left - *right) % 256,
        r.1 == (if left >= *right { 1u8 } else { 0u8 }),
{
    if left >= *right {
        (left - *right, 1)
    } else {
        let diff: u16 = 256 - (*right - left) as u16;
        (diff as u8, 0)
    }
}

/// Bitwise conjunction of two bytes.
pub fn and(left: Byte, right: Byte) -> (r: Byte)
    ensures
        r == (left & right),
{
    left & right
}

/// Bitwise disjunction of two bytes.
pub fn or(left: Byte, right: Byte) -> (r: Byte)
    ensures
        r == (left | right),
{
    left | right
}

/// Bitwise exclusive disjunction of two bytes.
pub fn xor(left: Byte, right: Byte) -> (r: Byte)
    ensures
        r == (left ^ right),
{
    left ^ right
}

/// Halves the value, shifting every bit one place to the right. Also returns
/// the least significant bit of the input.
pub fn shr(value: Byte) -> (r: (Byte, Byte))
    ensures
        r.0 == value / 2,
        r.1 == value % 2,
{
    (value / 2, value % 2)
}

/// Doubles the value modulo 256, shifting every bit one place to the left.
/// Also returns 1 exactly when the most significant bit of the input was set.
pub fn shl(value: Byte) -> (r: (Byte, Byte))
    ensures
        r.0 == (2 * value) % 256,
        r.1 == (if value >= 128 { 1u8 } else { 0u8 }),
{
    let doubled: u16 = 2 * (value as u16);
    ((doubled % 256) as u8, if value >= 128 { 1 } else { 0 })
}

} // verus!
