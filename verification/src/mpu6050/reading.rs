//! One reading of the orientation sensor.

use crate::fixed::saturate;
use crate::mpu6050::angle::{wrap_half_turn, wrap_radians, Angle};
use crate::mpu6050::unit::Radians;
use vstd::prelude::*;

verus! {

/// Rotation about the vertical, the lateral and the longitudinal axis.
#[derive(Debug, Clone, Copy)]
pub struct YawPitchRoll {
    pub yaw: Angle<Radians>,
    pub pitch: Angle<Radians>,
    pub roll: Angle<Radians>,
}

impl YawPitchRoll {
    /// The reading of these three angles.
    pub fn new(yaw: Angle<Radians>, pitch: Angle<Radians>, roll: Angle<Radians>) -> (r: Self)
        ensures
            r.yaw == yaw,
            r.pitch == pitch,
            r.roll == roll,
    {
        YawPitchRoll { yaw, pitch, roll }
    }

    /// The reading with nothing turned.
    pub fn zero() -> (r: Self)
        ensures
            r.yaw@ == 0,
            r.pitch@ == 0,
            r.roll@ == 0,
    {
        YawPitchRoll { yaw: Angle::new(0), pitch: Angle::new(0), roll: Angle::new(0) }
    }

    /// What the sensor's raw angles mean once the rest position `offset` is
    /// taken off. The sensor reports half the yaw, so the yaw is doubled
    /// first; each axis is then brought into `(-half turn, half turn]`.
    pub fn from_sensor(raw: YawPitchRoll, offset: &YawPitchRoll) -> (r: Self)
        ensures
            r.yaw@ == wrap_half_turn(2 * raw.yaw@ - offset.yaw@),
            r.pitch@ == wrap_half_turn(raw.pitch@ - offset.pitch@),
            r.roll@ == wrap_half_turn(raw.roll@ - offset.roll@),
    {
        let yaw: i64 = 2 * (raw.yaw.value() as i64) - offset.yaw.value() as i64;
        YawPitchRoll {
            yaw: Angle::new(wrap_radians(yaw)),
            pitch: raw.pitch.offset_by(offset.pitch),
            roll: raw.roll.offset_by(offset.roll),
        }
    }

    /// The reading of a sensor mounted upside down: every axis reversed.
    pub fn inverted(&self) -> (r: Self)
        ensures
            r.yaw@ == saturate(-self.yaw@),
            r.pitch@ == saturate(-self.pitch@),
            r.roll@ == saturate(-self.roll@),
    {
        YawPitchRoll { yaw: self.yaw.neg(), pitch: self.pitch.neg(), roll: self.roll.neg() }
    }
}

} // verus!
