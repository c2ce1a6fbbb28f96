//! What the mission is given: the phases, one reading of the sensors, and
//! the thresholds, windows and speeds of the course.

use crate::mpu6050::angle::{radians_to_degrees, wrap_half_turn, Angle};
use crate::mpu6050::reading::YawPitchRoll;
use crate::mpu6050::unit::{Degrees, Radians};
use vstd::prelude::*;

verus! {

/// The phases of the course, in the order in which they follow each other.
/// After the last the robot waits for the button again.
#[derive(Debug, Clone, Copy, PartialEq, Eq, Structural)]
pub enum Task {
    /// At rest until the start is signalled from outside.
    WaitForButton,
    /// On the floor, toward the wall.
    ApproachWall,
    /// Up the wall.
    ClimbUp,
    /// Over its top.
    ClimbOver,
    /// Down the other side.
    ClimbDown,
    /// Turning on the spot, looking for the pole.
    FindPole,
    /// Toward the pole.
    ApproachPole,
}

/// What the robot does while it looks for the pole.
#[derive(Debug, Clone, Copy, PartialEq, Eq, Structural)]
pub enum Scan {
    /// At rest: before the first sweep, or settling after a detection.
    Stop,
    /// Sweeping to the left.
    Left,
    /// Sweeping to the right.
    Right,
}

/// Which changes of attitude count as touching the pole's base.
#[derive(Debug, Clone, Copy, PartialEq, Eq, Structural)]
pub enum ContactGuards {
    /// A rise of the pitch only.
    PitchOnly,
    /// A rise of the pitch, or a roll to either side. Each has its own timer.
    PitchAndRoll,
}

/// One reading of all sensors: the attitude in radians and the range in
/// millimetres. Whatever the angles are, the mission compares them as angles
/// within half a turn of zero.
#[derive(Debug, Clone, Copy)]
pub struct SensorSnapshot {
    pub yaw: Angle<Radians>,
    pub pitch: Angle<Radians>,
    pub roll: Angle<Radians>,
    pub range: i16,
}

/// The thresholds, windows and speeds of the course. Angles are compared in
/// degrees, windows are in ticks, ranges in millimetres.
#[derive(Debug, Clone, Copy)]
pub struct MissionConfig {
    /// The speed on the floor and on the wall.
    pub cruise_speed: u32,
    /// The speed over the top of the wall.
    pub crest_speed: u32,
    /// The speed of a sweep.
    pub scan_speed: u32,
    /// The wall is mounted once the pitch is at least this.
    pub mount_pitch: Angle<Degrees>,
    /// The heading is corrected only while the pitch is at most this.
    pub level_pitch: Angle<Degrees>,
    /// The top is reached once the pitch has been at most this for
    /// `peak_window`.
    pub peak_pitch: Angle<Degrees>,
    pub peak_window: u32,
    /// The robot slows down over the top while the pitch is at most this.
    pub crest_pitch: Angle<Degrees>,
    /// The robot is over the top once the pitch has been at most this for
    /// `descent_window`.
    pub descent_pitch: Angle<Degrees>,
    pub descent_window: u32,
    /// The robot is back on the floor once the pitch has been at least this
    /// for `floor_window`.
    pub floor_pitch: Angle<Degrees>,
    pub floor_window: u32,
    /// A sweep turns back at this heading to either side.
    pub scan_angle: Angle<Degrees>,
    /// The pole is detected by a range this much below the expected one.
    pub range_buffer: u32,
    /// The robot rests this long after a detection before it takes its
    /// bearings.
    pub settle_window: u32,
    /// The pole is reached at a range below this.
    pub contact_range: i16,
    /// A pitch this much above the one at rest means the front wheel is on
    /// the pole's base.
    pub pitch_margin: Angle<Degrees>,
    /// A roll this far from the one at rest means a side wheel is on it.
    pub roll_margin: Angle<Degrees>,
    /// How long either must last to count.
    pub contact_window: u32,
    pub contact_guards: ContactGuards,
}

impl SensorSnapshot {
    /// The snapshot of an attitude and a range.
    pub fn new(attitude: YawPitchRoll, range: i16) -> (s: SensorSnapshot)
        ensures
            s.yaw == attitude.yaw,
            s.pitch == attitude.pitch,
            s.roll == attitude.roll,
            s.range == range,
    {
        SensorSnapshot { yaw: attitude.yaw, pitch: attitude.pitch, roll: attitude.roll, range }
    }

    /// The yaw in millionths of a degree, within half a turn of zero.
    pub open spec fn yaw_degrees(self) -> int {
        radians_to_degrees(wrap_half_turn(self.yaw@))
    }

    /// The pitch in millionths of a degree, within half a turn of zero.
    pub open spec fn pitch_degrees(self) -> int {
        radians_to_degrees(wrap_half_turn(self.pitch@))
    }

    /// The roll in millionths of a degree, within half a turn of zero.
    pub open spec fn roll_degrees(self) -> int {
        radians_to_degrees(wrap_half_turn(self.roll@))
    }

    /// The yaw in millionths of a degree.
    pub fn yaw_in_degrees(&self) -> (d: i32)
        ensures
            d == self.yaw_degrees(),
    {
        self.yaw.normalized().to_degrees().value()
    }

    /// The pitch in millionths of a degree.
    pub fn pitch_in_degrees(&self) -> (d: i32)
        ensures
            d == self.pitch_degrees(),
    {
        self.pitch.normalized().to_degrees().value()
    }

    /// The roll in millionths of a degree.
    pub fn roll_in_degrees(&self) -> (d: i32)
        ensures
            d == self.roll_degrees(),
    {
        self.roll.normalized().to_degrees().value()
    }
}

impl MissionConfig {
    /// The course with a wall to climb and a pole to find: full speed, the
    /// wall mounted at 60 degrees, its top at 45, the far side at -75 and
    /// the floor at -10, sweeps of 80 degrees to either side, and a pole
    /// that stands 250 mm in front of what is behind it.
    pub fn course() -> (c: MissionConfig)
        ensures
            c.cruise_speed == 100,
            c.crest_speed == 15,
            c.scan_speed == 5,
            c.mount_pitch@ == 60_000_000,
            c.level_pitch@ == 5_000_000,
            c.peak_pitch@ == 45_000_000,
            c.peak_window == 500_000,
            c.crest_pitch@ == -45_000_000,
            c.descent_pitch@ == -75_000_000,
            c.descent_window == 1_500_000,
            c.floor_pitch@ == -10_000_000,
            c.floor_window == 800_000,
            c.scan_angle@ == 80_000_000,
            c.range_buffer == 250,
            c.settle_window == 500_000,
            c.contact_range == 150,
            c.pitch_margin@ == 2_000_000,
            c.roll_margin@ == 3_000_000,
            c.contact_window == 250_000,
            c.contact_guards == ContactGuards::PitchAndRoll,
    {
        MissionConfig {
            cruise_speed: 100,
            crest_speed: 15,
            scan_speed: 5,
            mount_pitch: Angle::new(60_000_000),
            level_pitch: Angle::new(5_000_000),
            peak_pitch: Angle::new(45_000_000),
            peak_window: 500_000,
            crest_pitch: Angle::new(-45_000_000),
            descent_pitch: Angle::new(-75_000_000),
            descent_window: 1_500_000,
            floor_pitch: Angle::new(-10_000_000),
            floor_window: 800_000,
            scan_angle: Angle::new(80_000_000),
            range_buffer: 250,
            settle_window: 500_000,
            contact_range: 150,
            pitch_margin: Angle::new(2_000_000),
            roll_margin: Angle::new(3_000_000),
            contact_window: 250_000,
            contact_guards: ContactGuards::PitchAndRoll,
        }
    }
}

} // verus!
