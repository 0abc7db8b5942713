//! Formatting help for the text log: the fixed five-digit decimal form in
//! which 16-bit diagnostic values are written out.

use vstd::prelude::*;

verus! {

/// The five decimal digits of a 16-bit value, most significant first,
/// zero-padded, as ASCII bytes.
pub fn u16_decimal_digits(value: u16) -> (digits: [u8; 5])
    ensures
        digits@.len() == 5,
        digits@[0] == 48 + ((value as int) / 10000) % 10,
        digits@[1] == 48 + ((value as int) / 1000) % 10,
        digits@[2] == 48 + ((value as int) / 100) % 10,
        digits@[3] == 48 + ((value as int) / 10) % 10,
        digits@[4] == 48 + (value as int) % 10,
{
    let d0 = (value / 10000) % 10;
    let d1 = (value / 1000) % 10;
    let d2 = (value / 100) % 10;
    let d3 = (value / 10) % 10;
    let d4 = value % 10;
    [
        (d0 as u8) + 48,
        (d1 as u8) + 48,
        (d2 as u8) + 48,
        (d3 as u8) + 48,
        (d4 as u8) + 48,
    ]
}

} // verus!
