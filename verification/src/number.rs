//! Numbers as the library carries them.

use vstd::prelude::*;

verus! {

/// A 64-bit IEEE 754 number, held as its bit pattern.
///
/// The library stores such numbers and hands them on; it never does
/// arithmetic on them. The driver turns a number into its bits on the way in
/// and back on the way out. Two values are equal when their bits are.
#[derive(Clone, Copy, Debug, PartialEq, Eq, Structural)]
pub struct Number {
    pub bits: u64,
}

/// Positive zero: the pattern with every bit clear.
pub open spec fn zero() -> Number {
    Number { bits: 0 }
}

/// The amount to convert, given what parsing the amount field produced.
/// Text that is not a number is no error: it counts as zero.
pub open spec fn amount_of(parsed: Option<Number>) -> Number {
    match parsed {
        Some(amount) => amount,
        None => zero(),
    }
}

/// Returns the amount to convert: the parsed number, or positive zero where
/// the amount field held no number.
pub fn amount_or_zero(parsed: Option<Number>) -> (amount: Number)
    ensures
        amount == amount_of(parsed),
{
    match parsed {
        Some(amount) => amount,
        None => Number { bits: 0 },
    }
}

} // verus!
