//! How far to veer for a given heading error: a proportional policy and a
//! two-threshold policy with hysteresis.

use crate::fixed::{div_toward_zero, trunc_div};
use crate::mpu6050::angle::{radians_to_degrees, Angle};
use crate::mpu6050::unit::Radians;
use vstd::prelude::*;

verus! {

/// The policy that turns a heading error into a correction.
///
/// The heading error is the current heading less the desired one, in
/// millionths of a radian. A positive error is answered by a veer to the
/// left, a negative one by a veer to the right.
#[derive(Debug, Clone, Copy, PartialEq, Eq, Structural)]
pub enum CorrectionPolicy {
    /// The controller's output is `-gain` thousandths per degree of error,
    /// held to `output_limit` thousandths either way. Beyond `dead_band`
    /// thousandths it veers, by the base percentage of the side plus the
    /// whole part of the output's size.
    Proportional { gain: u32, output_limit: u32, dead_band: u32, left_base: u32, right_base: u32 },
    /// Up to `dead_band` of error it drives straight, beyond `threshold` it
    /// veers by `percentage`, and between the two it changes nothing.
    BangBang { dead_band: u32, threshold: u32, percentage: u32 },
}

/// What the policy asks of the drive.
#[derive(Debug, Clone, Copy, PartialEq, Eq, Structural)]
pub enum Correction {
    /// Drive straight on.
    Straight,
    /// Slow the left wheel by this percentage.
    VeerLeft { percentage: u32 },
    /// Slow the right wheel by this percentage.
    VeerRight { percentage: u32 },
    /// Leave the wheels as they are.
    Hold,
}

/// `x` held between `-limit` and `limit`.
pub open spec fn held_within(x: int, limit: int) -> int {
    if x > limit {
        limit
    } else if x < -limit {
        -limit
    } else {
        x
    }
}

/// The proportional controller's output in thousandths, for an error in
/// millionths of a radian.
pub open spec fn control_output(gain: u32, output_limit: u32, error: int) -> int {
    held_within(trunc_div(-radians_to_degrees(error) * gain, 1_000_000), output_limit as int)
}

/// The percentage of a veer: the base plus the whole part of the output's
/// size, at most 100.
pub open spec fn veer_percentage(base: u32, size: int) -> int {
    if base + size / 1000 > 100 {
        100
    } else {
        base + size / 1000
    }
}

impl CorrectionPolicy {
    /// The correction for a heading error in millionths of a radian.
    pub open spec fn correction(self, error: int) -> Correction {
        match self {
            CorrectionPolicy::Proportional { gain, output_limit, dead_band, left_base, right_base } => {
                let output = control_output(gain, output_limit, error);
                if output < -dead_band {
                    Correction::VeerLeft { percentage: veer_percentage(left_base, -output) as u32 }
                } else if output > dead_band {
                    Correction::VeerRight { percentage: veer_percentage(right_base, output) as u32 }
                } else {
                    Correction::Straight
                }
            },
            CorrectionPolicy::BangBang { dead_band, threshold, percentage } => {
                let size = if error >= 0 {
                    error
                } else {
                    -error
                };
                let by: u32 = if percentage > 100 {
                    100
                } else {
                    percentage
                };
                if size <= dead_band {
                    Correction::Straight
                } else if size <= threshold {
                    Correction::Hold
                } else if error > 0 {
                    Correction::VeerLeft { percentage: by }
                } else {
                    Correction::VeerRight { percentage: by }
                }
            },
        }
    }

    /// Ten units of output per degree of error, at most 25, a dead band of
    /// half a unit, and a base of 65 percent to the left and 75 to the right.
    pub fn proportional() -> (p: CorrectionPolicy)
        ensures
            p == (CorrectionPolicy::Proportional {
                gain: 10_000,
                output_limit: 25_000,
                dead_band: 500,
                left_base: 65,
                right_base: 75,
            }),
    {
        CorrectionPolicy::Proportional {
            gain: 10_000,
            output_limit: 25_000,
            dead_band: 500,
            left_base: 65,
            right_base: 75,
        }
    }

    /// Straight within one degree, a veer by 80 percent beyond two.
    pub fn bang_bang() -> (p: CorrectionPolicy)
        ensures
            p == (CorrectionPolicy::BangBang { dead_band: 17_453, threshold: 34_907, percentage: 80 }),
    {
        CorrectionPolicy::BangBang { dead_band: 17_453, threshold: 34_907, percentage: 80 }
    }

    /// Decides the correction for a heading error.
    pub fn decide(&self, error: Angle<Radians>) -> (c: Correction)
        ensures
            c == self.correction(error@),
    {
        match *self {
            CorrectionPolicy::Proportional { gain, output_limit, dead_band, left_base, right_base } => {
                let output: i64 = proportional_output(gain, output_limit, error);
                if output < -(dead_band as i64) {
                    Correction::VeerLeft { percentage: percentage_for(left_base, -output) }
                } else if output > dead_band as i64 {
                    Correction::VeerRight { percentage: percentage_for(right_base, output) }
                } else {
                    Correction::Straight
                }
            },
            CorrectionPolicy::BangBang { dead_band, threshold, percentage } => {
                let size: u32 = error.magnitude();
                let by: u32 = if percentage > 100 {
                    100
                } else {
                    percentage
                };
                if size <= dead_band {
                    Correction::Straight
                } else if size <= threshold {
                    Correction::Hold
                } else if error.value() > 0 {
                    Correction::VeerLeft { percentage: by }
                } else {
                    Correction::VeerRight { percentage: by }
                }
            },
        }
    }
}

/// The proportional controller's output in thousandths.
fn proportional_output(gain: u32, output_limit: u32, error: Angle<Radians>) -> (output: i64)
    ensures
        output == control_output(gain, output_limit, error@),
        -(output_limit as int) <= output <= output_limit,
{
    let degrees: i64 = error.to_degrees().value() as i64;
    let against: i64 = -degrees;
    let factor: i64 = gain as i64;
    assert(-0x7fff_ffff_8000_0000 <= against * factor <= 0x7fff_ffff_8000_0000) by (nonlinear_arith)
        requires
            -0x8000_0000 <= against <= 0x8000_0000,
            0 <= factor <= 0xffff_ffff,
    ;
    let raw: i64 = div_toward_zero(against * factor, 1_000_000);
    let limit: i64 = output_limit as i64;
    if raw > limit {
        limit
    } else if raw < -limit {
        -limit
    } else {
        raw
    }
}

/// The percentage of a veer for an output of the given size.
fn percentage_for(base: u32, size: i64) -> (percentage: u32)
    requires
        0 <= size,
    ensures
        percentage == veer_percentage(base, size as int),
        percentage <= 100,
{
    let whole: i64 = size / 1000;
    if base > 100 || whole > 100 - base as i64 {
        100
    } else {
        (base as i64 + whole) as u32
    }
}

/// The proportional policy never holds and never asks for more than 100
/// percent. With no error it drives straight. It veers left only for a
/// positive error and right only for a negative one, and it does veer once
/// the output passes the dead band.
pub proof fn lemma_proportional_corrects(policy: CorrectionPolicy, error: int)
    requires
        policy is Proportional,
        i32::MIN <= error <= i32::MAX,
    ensures
        policy.correction(0) == Correction::Straight,
        !(policy.correction(error) is Hold),
        policy.correction(error) matches Correction::VeerLeft { percentage } ==> error > 0
            && percentage <= 100 && percentage >= min_u32(policy->left_base, 100),
        policy.correction(error) matches Correction::VeerRight { percentage } ==> error < 0
            && percentage <= 100 && percentage >= min_u32(policy->right_base, 100),
        control_output(policy->gain, policy->output_limit, error) < -policy->Proportional_dead_band
            <==> policy.correction(error) is VeerLeft,
        control_output(policy->gain, policy->output_limit, error) > policy->Proportional_dead_band
            <==> policy.correction(error) is VeerRight,
{
    let gain = policy->gain;
    let degrees = radians_to_degrees(error);
    assert(degrees > 0 ==> error > 0);
    assert(degrees < 0 ==> error < 0);
    assert(radians_to_degrees(0) == 0);
    assert(-degrees <= 0 ==> -degrees * gain <= 0) by (nonlinear_arith)
        requires
            gain >= 0,
    ;
    assert(-degrees >= 0 ==> -degrees * gain >= 0) by (nonlinear_arith)
        requires
            gain >= 0,
    ;
    assert(0 * gain == 0);
}

/// The smaller of two numbers.
pub open spec fn min_u32(a: u32, b: u32) -> u32 {
    if a <= b {
        a
    } else {
        b
    }
}

/// The two-threshold policy: straight within the dead band, no change
/// between the dead band and the threshold, and beyond the threshold a veer
/// against the error by the fixed percentage, at most 100.
pub proof fn lemma_bang_bang_corrects(policy: CorrectionPolicy, error: int)
    requires
        policy is BangBang,
    ensures
        policy.correction(0) == Correction::Straight,
        policy.correction(error) is Straight <==> -policy->BangBang_dead_band <= error
            <= policy->BangBang_dead_band,
        policy.correction(error) matches Correction::VeerLeft { percentage } ==> error
            > policy->threshold && percentage == min_u32(policy->percentage, 100),
        policy.correction(error) matches Correction::VeerRight { percentage } ==> error
            < -policy->threshold && percentage == min_u32(policy->percentage, 100),
        policy->BangBang_dead_band <= policy->threshold ==> (policy.correction(error) is VeerLeft
            <==> error > policy->threshold),
        policy->BangBang_dead_band <= policy->threshold ==> (policy.correction(error) is VeerRight
            <==> error < -policy->threshold),
{
}

} // verus!
