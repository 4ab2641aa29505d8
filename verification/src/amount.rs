//! Amounts are whole numbers of the minor unit, one ten-thousandth of a unit
//! of currency. This module splits such a number into the parts of its
//! decimal notation.

use vstd::prelude::*;

verus! {

/// The number of minor units in one unit of currency.
pub const MINOR_UNITS: u128 = 10_000;

/// An amount as it is written with four decimal digits: a sign, the whole
/// units, and the ten-thousandths after the point.
#[derive(Debug, Clone, Copy, PartialEq, Eq, Structural)]
pub struct DecimalParts {
    pub negative: bool,
    pub whole: u128,
    pub fraction: u16,
}

impl DecimalParts {
    /// The amount in minor units that the parts stand for.
    pub open spec fn value(self) -> int {
        let magnitude = self.whole * 10_000 + self.fraction;
        if self.negative {
            -magnitude
        } else {
            magnitude
        }
    }

    /// The parts are in their normal form: fewer than ten thousand
    /// ten-thousandths, and no sign on zero.
    pub open spec fn normal(self) -> bool {
        &&& self.fraction < 10_000
        &&& self.negative ==> self.whole > 0 || self.fraction > 0
    }
}

/// The parts of the decimal notation of `value` minor units.
pub fn decimal_parts(value: i128) -> (parts: DecimalParts)
    ensures
        parts.value() == value,
        parts.normal(),
{
    let negative = value < 0;
    let magnitude: u128 = if negative {
        (-(value + 1)) as u128 + 1
    } else {
        value as u128
    };
    let whole: u128 = magnitude / MINOR_UNITS;
    let fraction: u16 = (magnitude % MINOR_UNITS) as u16;
    DecimalParts { negative, whole, fraction }
}

} // verus!
