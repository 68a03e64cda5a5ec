//! Fixed-point prices and quantities, and timestamps.

use vstd::prelude::*;

verus! {

/// Nanoseconds since the Unix epoch.
pub type UnixNanos = u64;

/// The largest number of decimal places a fixed-point value can carry.
pub const FIXED_PRECISION: u8 = 9;

/// Raw units per whole unit of a fixed-point value.
pub const FIXED_SCALAR: u64 = 1_000_000_000;

/// A price: `raw / FIXED_SCALAR`, shown with `precision` decimal places.
///
/// Prices are ordered by their raw value.
#[derive(Clone, Copy, Debug, PartialEq, Eq, Structural)]
pub struct Price {
    pub raw: i64,
    pub precision: u8,
}

impl Price {
    pub fn from_raw(raw: i64, precision: u8) -> (p: Price)
        ensures
            p == (Price { raw, precision }),
    {
        Price { raw, precision }
    }
}

/// A non-negative quantity: `raw / FIXED_SCALAR`, shown with `precision`
/// decimal places.
#[derive(Clone, Copy, Debug, PartialEq, Eq, Structural)]
pub struct Quantity {
    pub raw: u64,
    pub precision: u8,
}

impl Quantity {
    /// The additive identity at the given precision.
    pub open spec fn spec_zero(precision: u8) -> Quantity {
        Quantity { raw: 0, precision }
    }

    /// The sum of two quantities, at the precision of the left one.
    pub open spec fn spec_add(self, rhs: Quantity) -> Quantity
        recommends
            self.raw + rhs.raw <= u64::MAX,
    {
        Quantity { raw: (self.raw + rhs.raw) as u64, precision: self.precision }
    }

    pub fn from_raw(raw: u64, precision: u8) -> (q: Quantity)
        ensures
            q == (Quantity { raw, precision }),
    {
        Quantity { raw, precision }
    }

    pub fn zero(precision: u8) -> (q: Quantity)
        ensures
            q == Quantity::spec_zero(precision),
    {
        Quantity { raw: 0, precision }
    }

    /// Adds `rhs`, keeping the precision of `self`.
    pub fn add(self, rhs: Quantity) -> (q: Quantity)
        requires
            self.raw + rhs.raw <= u64::MAX,
        ensures
            q == self.spec_add(rhs),
            q.raw == self.raw + rhs.raw,
            q.precision == self.precision,
    {
        Quantity { raw: self.raw + rhs.raw, precision: self.precision }
    }
}

/// The raw quantity that stands for `step` whole units, held at `u64::MAX`
/// where the product would not fit.
pub open spec fn spec_raw_step(step: usize) -> u64 {
    if step * FIXED_SCALAR <= u64::MAX {
        (step * FIXED_SCALAR) as u64
    } else {
        u64::MAX
    }
}

pub fn raw_step(step: usize) -> (r: u64)
    ensures
        r == spec_raw_step(step),
{
    let s: u64 = step as u64;
    if s <= u64::MAX / FIXED_SCALAR {
        s * FIXED_SCALAR
    } else {
        u64::MAX
    }
}

} // verus!
