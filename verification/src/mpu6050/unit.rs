//! Marker types for the units of an angle.

use vstd::prelude::*;

verus! {

/// Radians.
#[derive(Debug, Clone, Copy)]
pub enum Radians {
    Unit,
}

/// Degrees.
#[derive(Debug, Clone, Copy)]
pub enum Degrees {
    Unit,
}

/// A unit that a value can be printed in.
pub trait ValidUnit {
    /// The unit's symbol, as printed behind a value.
    const UNIT: &'static str;
}

impl ValidUnit for Radians {
    const UNIT: &'static str = " rad";
}

impl ValidUnit for Degrees {
    const UNIT: &'static str = "°";
}

} // verus!
