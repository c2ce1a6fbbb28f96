//! Marker types for the units of a distance.

use vstd::prelude::*;

verus! {

/// Microseconds of echo pulse.
#[derive(Debug, Clone, Copy)]
pub enum PulseDuration {
    Unit,
}

/// Centimetres.
#[derive(Debug, Clone, Copy)]
pub enum Cm {
    Unit,
}

/// Inches.
#[derive(Debug, Clone, Copy)]
pub enum Inch {
    Unit,
}

/// A unit that a value can be printed in.
pub trait ValidUnit {
    /// The unit's symbol, as printed behind a value.
    const UNIT: &'static str;
}

impl ValidUnit for PulseDuration {
    const UNIT: &'static str = "us";
}

impl ValidUnit for Cm {
    const UNIT: &'static str = "cm";
}

impl ValidUnit for Inch {
    const UNIT: &'static str = "in";
}

} // verus!
