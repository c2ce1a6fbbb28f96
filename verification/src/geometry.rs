//! The arena as the range sensor sees it: for a heading, the boundary in the
//! line of sight and the range expected of it.

use crate::mpu6050::angle::Angle;
use crate::mpu6050::unit::Radians;
use crate::servo::Error;
use vstd::prelude::*;

verus! {

/// A quarter turn in millionths of a radian.
pub const QUARTER_TURN: u32 = 1_570_796;

/// The scale of a cosine: one, in millionths.
pub const UNIT_COSINE: u32 = 1_000_000;

/// The arena's measures in millimetres, and the two headings, in millionths
/// of a radian, at which the line of sight passes from one boundary to the
/// next: the corner angle, whose tangent is half the width over the length,
/// and the ramp angle, a quarter turn less the angle whose tangent is the
/// ramp's length over the gap between the ramp and the side.
#[derive(Debug, Clone, Copy, PartialEq, Eq, Structural)]
pub struct Arena {
    pub course_width: u32,
    pub course_length: u32,
    pub ramp_length: u32,
    pub ramp_width: u32,
    pub sensor_offset: u32,
    pub corner_angle: u32,
    pub ramp_angle: u32,
}

/// The boundary in the line of sight.
#[derive(Debug, Clone, Copy, PartialEq, Eq, Structural)]
pub enum Region {
    /// The rear boundary, straight ahead.
    Rear,
    /// A side boundary.
    Side,
    /// The edge of the ramp.
    Ramp,
}

/// The right triangle that the line of sight makes with a boundary: the
/// distance to the boundary at a right angle, in millimetres, and the angle
/// between that and the line of sight, in millionths of a radian.
#[derive(Debug, Clone, Copy, PartialEq, Eq, Structural)]
pub struct SightLine {
    pub region: Region,
    pub adjacent: u32,
    pub angle: i32,
}

impl Arena {
    /// The ramp leaves room beside it, and both angles are at most a quarter
    /// turn.
    pub open spec fn consistent(self) -> bool {
        &&& self.ramp_width <= self.course_width / 2
        &&& self.corner_angle <= 1_570_796
        &&& self.ramp_angle <= 1_570_796
    }

    /// The sight line at a heading in millionths of a radian. Only the size
    /// of the heading counts. Beyond the ramp angle the ramp is in sight,
    /// else beyond the corner angle a side, else the rear.
    pub open spec fn sight_line(self, heading: int) -> SightLine {
        let theta = if heading >= 0 {
            heading
        } else {
            -heading
        };
        if theta > self.ramp_angle {
            SightLine {
                region: Region::Ramp,
                adjacent: (self.course_width / 2 - self.ramp_width) as u32,
                angle: (1_570_796 - theta) as i32,
            }
        } else if theta > self.corner_angle {
            SightLine {
                region: Region::Side,
                adjacent: self.course_width / 2,
                angle: (1_570_796 - theta) as i32,
            }
        } else {
            SightLine { region: Region::Rear, adjacent: self.course_length, angle: theta as i32 }
        }
    }

    /// The range expected at a heading, in millimetres: the hypotenuse of
    /// the sight line less the sensor's distance from the robot's rear,
    /// rounded down. `cosine` is the cosine of the sight line's angle in
    /// millionths; there is no expected range unless it lies in `(0, 1]`.
    pub open spec fn expected_range(self, heading: int, cosine: u32) -> Option<int> {
        if cosine == 0 || cosine > 1_000_000 {
            None
        } else {
            Some(self.sight_line(heading).adjacent * 1_000_000 / (cosine as int) - self.sensor_offset)
        }
    }
}

/// A consistent arena.
#[derive(Debug)]
pub struct Geometry {
    arena: Arena,
}

impl View for Geometry {
    type V = Arena;

    closed spec fn view(&self) -> Arena {
        self.arena
    }
}

impl Clone for Geometry {
    fn clone(&self) -> (g: Self)
        ensures
            g@ == self@,
    {
        proof {
            use_type_invariant(self);
        }
        Geometry { arena: self.arena }
    }
}

impl Geometry {
    #[verifier::type_invariant]
    spec fn arena_is_consistent(self) -> bool {
        self.arena.consistent()
    }

    /// Takes the arena's measures, unless they contradict each other.
    pub fn new(arena: Arena) -> (r: Result<Geometry, Error>)
        ensures
            arena.consistent() ==> (r matches Ok(g) && g@ == arena),
            !arena.consistent() ==> (r matches Err(e) && e == Error::InvalidParameter),
    {
        if arena.ramp_width <= arena.course_width / 2 && arena.corner_angle <= QUARTER_TURN
            && arena.ramp_angle <= QUARTER_TURN {
            Ok(Geometry { arena })
        } else {
            Err(Error::InvalidParameter)
        }
    }

    /// The measures that this geometry was made of.
    pub fn arena(&self) -> (a: Arena)
        ensures
            a == self@,
            a.consistent(),
    {
        proof {
            use_type_invariant(self);
        }
        self.arena
    }

    /// The boundary in sight at a heading, and the triangle it makes.
    pub fn sight_line(&self, heading: Angle<Radians>) -> (s: SightLine)
        ensures
            s == self@.sight_line(heading@),
    {
        proof {
            use_type_invariant(self);
        }
        let theta: u32 = heading.magnitude();
        if theta > self.arena.ramp_angle {
            SightLine {
                region: Region::Ramp,
                adjacent: self.arena.course_width / 2 - self.arena.ramp_width,
                angle: (QUARTER_TURN as i64 - theta as i64) as i32,
            }
        } else if theta > self.arena.corner_angle {
            SightLine {
                region: Region::Side,
                adjacent: self.arena.course_width / 2,
                angle: (QUARTER_TURN as i64 - theta as i64) as i32,
            }
        } else {
            SightLine { region: Region::Rear, adjacent: self.arena.course_length, angle: theta as i32 }
        }
    }

    /// The range expected at a heading, given the cosine of its sight
    /// line's angle in millionths.
    pub fn expected_range(&self, heading: Angle<Radians>, cosine: u32) -> (r: Option<i64>)
        ensures
            match self@.expected_range(heading@, cosine) {
                Some(e) => r == Some(e as i64) && -0xffff_ffff <= e <= 0xffff_ffff * 1_000_000,
                None => r is None,
            },
    {
        if cosine == 0 || cosine > UNIT_COSINE {
            return None;
        }
        let sight: SightLine = self.sight_line(heading);
        let scaled: i64 = sight.adjacent as i64 * 1_000_000;
        let hypotenuse: i64 = scaled / cosine as i64;
        assert(0 <= hypotenuse <= scaled) by (nonlinear_arith)
            requires
                hypotenuse == (scaled as int) / (cosine as int),
                0 <= scaled,
                cosine >= 1,
        ;
        Some(hypotenuse - self.arena.sensor_offset as i64)
    }
}

/// The same is in sight to the left as to the right: the sight line and the
/// expected range depend only on the size of the heading.
pub proof fn lemma_sight_is_symmetric(arena: Arena, heading: int, cosine: u32)
    ensures
        arena.sight_line(-heading) == arena.sight_line(heading),
        arena.expected_range(-heading, cosine) == arena.expected_range(heading, cosine),
{
}

/// Straight ahead the rear boundary is in sight, at a right angle: the
/// expected range is the course's length less the sensor's offset.
pub proof fn lemma_rear_straight_ahead(arena: Arena)
    ensures
        arena.sight_line(0) == (SightLine {
            region: Region::Rear,
            adjacent: arena.course_length,
            angle: 0,
        }),
        arena.expected_range(0, 1_000_000) == Some(arena.course_length - arena.sensor_offset),
{
    assert(arena.course_length * 1_000_000 / 1_000_000 == arena.course_length);
}

/// For a heading within half a turn, the triangle of a consistent arena has
/// an angle within a quarter turn of zero, and the expected range is never
/// shorter than the distance to the boundary at a right angle, less the
/// sensor's offset.
pub proof fn lemma_sight_line_bounds(arena: Arena, heading: int, cosine: u32)
    requires
        arena.consistent(),
        -3_141_593 <= heading <= 3_141_593,
        0 < cosine <= 1_000_000,
    ensures
        -1_570_797 <= arena.sight_line(heading).angle <= 1_570_796,
        arena.sight_line(heading).region is Rear ==> 0 <= arena.sight_line(heading).angle
            <= arena.corner_angle,
        arena.expected_range(heading, cosine) matches Some(e) && e >= arena.sight_line(
            heading,
        ).adjacent - arena.sensor_offset,
{
    let adjacent = arena.sight_line(heading).adjacent as int;
    let c = cosine as int;
    assert(adjacent * 1_000_000 / c >= adjacent) by (nonlinear_arith)
        requires
            0 <= adjacent,
            0 < c <= 1_000_000,
    ;
}

} // verus!
