//! What the wheel actuators accept: their input ranges and their errors.

use vstd::prelude::*;

verus! {

/// Failures reported by the drive controller and its wheel actuators.
#[derive(Debug, Clone, Copy, PartialEq, Eq, Structural)]
pub enum Error {
    /// The wheel drive has no output channel to act on.
    PwmDisabled,
    /// A wheel position lies outside the actuator's input range.
    InvalidPosition,
    /// A percentage or a direction lies outside what the call accepts.
    InvalidParameter,
}

/// Input values mapped to an actuator's lower and upper limits respectively.
/// The first may be the larger one: the actuator then turns the other way.
pub type InputRange = (i32, i32);

/// The input ranges in use, and the reversal of a range.
pub trait ServoRanges: Sized {
    /// Range of a positional actuator, in degrees.
    const POSITIONAL_RANGE: InputRange = (0, 180);

    /// Range of a continuous actuator. The magnitude is the speed and the
    /// sign the direction.
    const CONTINUOUS_RANGE: InputRange = (-100, 100);

    /// The same range, turning the other way.
    fn rev(self) -> Self;
}

impl ServoRanges for InputRange {
    fn rev(self) -> (r: Self)
        ensures
            r == (self.1, self.0),
    {
        (self.1, self.0)
    }
}

/// The range of the robot's wheels.
pub fn continuous_range() -> (r: InputRange)
    ensures
        r == (-100i32, 100i32),
{
    InputRange::CONTINUOUS_RANGE
}

/// The range of a positional actuator.
pub fn positional_range() -> (r: InputRange)
    ensures
        r == (0i32, 180i32),
{
    InputRange::POSITIONAL_RANGE
}

/// The smaller end of a range.
pub open spec fn range_low(range: InputRange) -> int {
    if range.0 < range.1 {
        range.0 as int
    } else {
        range.1 as int
    }
}

/// The larger end of a range.
pub open spec fn range_high(range: InputRange) -> int {
    if range.0 < range.1 {
        range.1 as int
    } else {
        range.0 as int
    }
}

/// Whether a position lies between the two ends of a range, whichever way
/// round they are given.
pub open spec fn range_accepts(range: InputRange, position: int) -> bool {
    range_low(range) <= position <= range_high(range)
}

/// Tells whether an actuator with this input range takes the position.
pub fn accepts(range: InputRange, position: i32) -> (ok: bool)
    ensures
        ok == range_accepts(range, position as int),
{
    let low: i32;
    let high: i32;
    if range.0 < range.1 {
        low = range.0;
        high = range.1;
    } else {
        low = range.1;
        high = range.0;
    }
    low <= position && position <= high
}

/// Reversing a range changes the way it turns, not what it accepts.
pub proof fn lemma_rev_accepts_same(range: InputRange, position: int)
    ensures
        range_accepts((range.1, range.0), position) == range_accepts(range, position),
{
}

} // verus!
