//! Angles in millionths of a radian or of a degree.

use crate::fixed::{div_toward_zero, saturate, saturate_to_i32, trunc_div};
use crate::mpu6050::unit::{Degrees, Radians};
use core::cmp::Ordering;
use core::marker::PhantomData;
use vstd::prelude::*;
use vstd::std_specs::cmp::{PartialEqSpecImpl, PartialOrdSpecImpl};

verus! {

/// Half a turn in millionths of a radian.
pub const HALF_TURN_RAD: i32 = 3_141_593;

/// A full turn in millionths of a radian.
pub const FULL_TURN_RAD: i32 = 6_283_186;

/// Half a turn in millionths of a degree.
pub const HALF_TURN_DEG: i32 = 180_000_000;

/// Millionths of a radian as millionths of a degree, rounded toward zero and
/// held to what 32 bits can take.
pub open spec fn radians_to_degrees(rad: int) -> int {
    saturate(trunc_div(rad * 180_000_000, 3_141_593))
}

/// Millionths of a degree as millionths of a radian, rounded toward zero.
pub open spec fn degrees_to_radians(deg: int) -> int {
    trunc_div(deg * 3_141_593, 180_000_000)
}

/// The angle in `(-half turn, half turn]` that differs from `rad` by whole
/// turns.
pub open spec fn wrap_half_turn(rad: int) -> int {
    3_141_593 - ((3_141_593 - rad) % 6_283_186)
}

/// Brings an angle in millionths of a radian into `(-half turn, half turn]`.
pub fn wrap_radians(rad: i64) -> (r: i32)
    requires
        -0x2_0000_0000 <= rad <= 0x2_0000_0000,
    ensures
        r == wrap_half_turn(rad as int),
        -3_141_593 < r <= 3_141_593,
{
    let turn: i64 = FULL_TURN_RAD as i64;
    let half: i64 = HALF_TURN_RAD as i64;
    let d: i64 = half - rad;
    let m: i64;
    if d >= 0 {
        m = d % turn;
    } else {
        let n: i64 = (-d) % turn;
        if n == 0 {
            m = 0;
        } else {
            m = turn - n;
        }
    }
    (half - m) as i32
}

/// An angle in the unit `U`, in millionths of it.
#[derive(Debug)]
pub struct Angle<U>(i32, PhantomData<U>);

impl<U> Clone for Angle<U> {
    fn clone(&self) -> (a: Self)
        ensures
            a == *self,
    {
        Angle(self.0, PhantomData)
    }
}

impl<U> Copy for Angle<U> {}

impl<U> View for Angle<U> {
    type V = int;

    /// The number of millionths of the unit.
    closed spec fn view(&self) -> int {
        self.0 as int
    }
}

impl<U> Angle<U> {
    /// The angle in millionths of its unit.
    pub fn value(&self) -> (v: i32)
        ensures
            v == self@,
    {
        self.0
    }

    /// The angle of this many millionths of the unit.
    pub fn new(value: i32) -> (a: Angle<U>)
        ensures
            a@ == value,
    {
        Angle(value, PhantomData)
    }

    /// The opposite angle. The one value without an opposite gives the
    /// largest angle.
    pub fn neg(self) -> (a: Angle<U>)
        ensures
            a@ == saturate(-self@),
    {
        if self.0 == -2_147_483_648 {
            Angle(2_147_483_647, PhantomData)
        } else {
            Angle(-self.0, PhantomData)
        }
    }

    /// The size of the angle, whatever its sign.
    pub fn magnitude(&self) -> (m: u32)
        ensures
            m == (if self@ >= 0 { self@ } else { -self@ }),
    {
        if self.0 >= 0 {
            self.0 as u32
        } else {
            (-(self.0 as i64)) as u32
        }
    }
}

impl Angle<Radians> {
    /// The same angle in degrees, rounded toward zero. An angle too large
    /// for the type gives the largest angle of its sign.
    pub fn to_degrees(&self) -> (a: Angle<Degrees>)
        ensures
            a@ == radians_to_degrees(self@),
    {
        let wide: i64 = self.0 as i64 * 180_000_000;
        Angle(saturate_to_i32(div_toward_zero(wide, 3_141_593)), PhantomData)
    }

    /// The same direction, expressed in `(-half turn, half turn]`.
    pub fn normalized(&self) -> (a: Angle<Radians>)
        ensures
            a@ == wrap_half_turn(self@),
    {
        Angle(wrap_radians(self.0 as i64), PhantomData)
    }

    /// This angle as seen from `reference`: their difference, brought into
    /// `(-half turn, half turn]`.
    pub fn offset_by(&self, reference: Angle<Radians>) -> (a: Angle<Radians>)
        ensures
            a@ == wrap_half_turn(self@ - reference@),
    {
        Angle(wrap_radians(self.0 as i64 - reference.0 as i64), PhantomData)
    }
}

impl Angle<Degrees> {
    /// The same angle in radians, rounded toward zero.
    pub fn to_radians(&self) -> (a: Angle<Radians>)
        ensures
            a@ == degrees_to_radians(self@),
    {
        let wide: i64 = self.0 as i64 * 3_141_593;
        let q: i64 = div_toward_zero(wide, 180_000_000);
        Angle(q as i32, PhantomData)
    }
}

impl<U> PartialEq for Angle<U> {
    fn eq(&self, other: &Self) -> (r: bool) {
        self.0 == other.0
    }
}

impl<U> PartialEqSpecImpl for Angle<U> {
    open spec fn obeys_eq_spec() -> bool {
        true
    }

    open spec fn eq_spec(&self, other: &Self) -> bool {
        self@ == other@
    }
}

impl<U> PartialOrd for Angle<U> {
    fn partial_cmp(&self, other: &Self) -> (r: Option<Ordering>) {
        if self.0 == other.0 {
            Some(Ordering::Equal)
        } else if self.0 < other.0 {
            Some(Ordering::Less)
        } else {
            Some(Ordering::Greater)
        }
    }
}

impl<U> PartialOrdSpecImpl for Angle<U> {
    open spec fn obeys_partial_cmp_spec() -> bool {
        true
    }

    open spec fn partial_cmp_spec(&self, other: &Self) -> Option<Ordering> {
        if self@ == other@ {
            Some(Ordering::Equal)
        } else if self@ < other@ {
            Some(Ordering::Less)
        } else {
            Some(Ordering::Greater)
        }
    }
}

/// A wrapped angle lies in `(-half turn, half turn]` and differs from the
/// angle it came from by a whole number of turns.
pub proof fn lemma_wrap_is_same_direction(rad: int)
    ensures
        -3_141_593 < wrap_half_turn(rad) <= 3_141_593,
        (wrap_half_turn(rad) - rad) % 6_283_186 == 0,
{
}

/// An angle already in `(-half turn, half turn]` is left as it is, so
/// wrapping twice is wrapping once.
pub proof fn lemma_wrap_keeps_wrapped(rad: int)
    ensures
        -3_141_593 < rad <= 3_141_593 ==> wrap_half_turn(rad) == rad,
        wrap_half_turn(wrap_half_turn(rad)) == wrap_half_turn(rad),
{
}

/// Within a full turn either way, the opposite angle in radians converts to
/// the opposite angle in degrees, and nothing is cut off: the result stays
/// within 360 degrees and one millionth.
pub proof fn lemma_to_degrees_is_odd(rad: int)
    requires
        -6_283_186 <= rad <= 6_283_186,
    ensures
        radians_to_degrees(-rad) == -radians_to_degrees(rad),
        -360_000_001 <= radians_to_degrees(rad) <= 360_000_001,
{
}

/// The opposite angle in degrees converts to the opposite angle in radians,
/// and the result is never larger in size than what came in.
pub proof fn lemma_to_radians_is_odd(deg: int)
    ensures
        degrees_to_radians(-deg) == -degrees_to_radians(deg),
        deg >= 0 ==> 0 <= degrees_to_radians(deg) <= deg,
{
}

/// Half a turn in radians is half a turn in degrees, and the other way
/// round to within one millionth of a radian.
pub proof fn lemma_half_turn_converts()
    ensures
        radians_to_degrees(3_141_593) == 180_000_000,
        degrees_to_radians(180_000_000) == 3_141_593,
        radians_to_degrees(0) == 0,
        degrees_to_radians(0) == 0,
{
}

} // verus!
