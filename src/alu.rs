use vstd::prelude::*;

verus! {

/// Adds two bytes modulo 256; the flag is 1 exactly when the unsigned sum exceeds 255.
pub fn add_with_carry(a: u8, b: u8) -> (r: (u8, u8))
    ensures
        r.0 == (a + b) % 256,
        r.1 == (if a + b > 255 { 1u8 } else { 0u8 }),
{
    let sum: u16 = a as u16 + b as u16;
    if sum > 255 {
        ((sum - 256) as u8, 1)
    } else {
        (sum as u8, 0)
    }
}

/// Subtracts `b` from `a` modulo 256; the flag is 1 exactly when no borrow occurs,
/// that is when `a >= b`.
pub fn subtract_with_flag(a: u8, b: u8) -> (r: (u8, u8))
    ensures
        r.0 == (a - b + 256) % 256,
        r.1 == (if a >= b { 1u8 } else { 0u8 }),
{
    if a >= b {
        (a - b, 1)
    } else {
        ((a as u16 + 256 - b as u16) as u8, 0)
    }
}

} // verus!
