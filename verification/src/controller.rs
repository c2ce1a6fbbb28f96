//! The robot's drive: it keeps the speeds last given to the three wheels and
//! changes them by direction, by heading or by veering.

use crate::drive::{
    lemma_some_wheel_at_full_speed, lemma_wheel_speeds_bounded, slowed, Direction, VeerOptions,
    WheelCommand,
};
use crate::fixed::{div_toward_zero, trunc_div};
use crate::mpu6050::angle::{wrap_half_turn, Angle};
use crate::mpu6050::unit::Radians;
use crate::servo::{accepts, continuous_range, Error, InputRange};
use crate::steering::{Correction, CorrectionPolicy};
use vstd::prelude::*;

verus! {

/// The side toward which the robot veers: the wheel on that side is slowed.
#[derive(Debug, Clone, Copy, PartialEq, Eq, Structural)]
pub enum Side {
    Left,
    Right,
}

/// The wheels' speeds after `drive`, or the error that leaves them as they
/// were: an invalid veer is refused first, then a speed that the wheels do
/// not take.
pub open spec fn drive_result(direction: Direction, speed: u32) -> Result<WheelCommand, Error> {
    if !direction.valid() {
        Err(Error::InvalidParameter)
    } else if speed > 100 {
        Err(Error::InvalidPosition)
    } else {
        let w = direction.wheel_speeds(speed as int);
        Ok(WheelCommand { front: w.0 as i32, left: w.1 as i32, right: w.2 as i32 })
    }
}

/// The direction that carries out a correction while going `way`, or none
/// where the wheels are to be left alone.
pub open spec fn corrected_direction(correction: Correction, way: VeerOptions) -> Option<Direction> {
    match correction {
        Correction::Straight => Some(
            match way {
                VeerOptions::Forward => Direction::Forward,
                VeerOptions::Backward => Direction::Backward,
            },
        ),
        Correction::VeerLeft { percentage } => Some(Direction::VeerLeft { direction: way, percentage }),
        Correction::VeerRight { percentage } => Some(
            Direction::VeerRight { direction: way, percentage },
        ),
        Correction::Hold => None,
    }
}

/// The wheels' speeds after `drive_straight`, or the error that leaves them
/// as they were. `current` and `desired` are headings in millionths of a
/// radian; the error that the policy sees is their difference, brought into
/// `(-half turn, half turn]`.
pub open spec fn straight_result(
    policy: CorrectionPolicy,
    before: WheelCommand,
    current: int,
    desired: int,
    direction: Direction,
    speed: u32,
) -> Result<WheelCommand, Error> {
    match direction {
        Direction::Forward | Direction::Backward => {
            let way = if direction is Forward {
                VeerOptions::Forward
            } else {
                VeerOptions::Backward
            };
            match corrected_direction(policy.correction(wrap_half_turn(current - desired)), way) {
                Some(d) => drive_result(d, speed),
                None => Ok(before),
            }
        },
        _ => Err(Error::InvalidParameter),
    }
}

/// The faster of the two side wheels, the left one if they are equally fast.
pub open spec fn faster_side(before: WheelCommand) -> int {
    let left = if before.left >= 0 {
        before.left as int
    } else {
        -before.left
    };
    let right = if before.right >= 0 {
        before.right as int
    } else {
        -before.right
    };
    if left >= right {
        before.left as int
    } else {
        before.right as int
    }
}

/// The wheels' speeds after `veer`, or the error that leaves them as they
/// were. The wheel on the other side takes the speed of the faster side
/// wheel, the wheel on the named side that speed less the percentage,
/// rounded toward zero. The front wheel is not touched.
pub open spec fn veer_result(before: WheelCommand, side: Side, percentage: int) -> Result<
    WheelCommand,
    Error,
> {
    if !(0 <= percentage <= 100) {
        Err(Error::InvalidParameter)
    } else {
        let full = faster_side(before);
        let slow = trunc_div(full * (100 - percentage), 100);
        match side {
            Side::Left => Ok(
                WheelCommand { front: before.front, left: slow as i32, right: full as i32 },
            ),
            Side::Right => Ok(
                WheelCommand { front: before.front, left: full as i32, right: slow as i32 },
            ),
        }
    }
}

/// The drive controller of the robot.
#[derive(Debug)]
pub struct Mikoto {
    wheels: WheelCommand,
    policy: CorrectionPolicy,
}

impl Mikoto {
    #[verifier::type_invariant]
    spec fn wheels_take_their_speeds(self) -> bool {
        self.wheels.in_range()
    }

    /// The speeds last given to the wheels.
    pub closed spec fn wheels(&self) -> WheelCommand {
        self.wheels
    }

    /// The policy that `drive_straight` follows.
    pub closed spec fn policy(&self) -> CorrectionPolicy {
        self.policy
    }

    /// A drive at rest that corrects its heading in proportion to the error.
    pub fn new() -> (bot: Mikoto)
        ensures
            bot.wheels() == (WheelCommand { front: 0, left: 0, right: 0 }),
            bot.policy() == (CorrectionPolicy::Proportional {
                gain: 10_000,
                output_limit: 25_000,
                dead_band: 500,
                left_base: 65,
                right_base: 75,
            }),
    {
        Mikoto {
            wheels: WheelCommand { front: 0, left: 0, right: 0 },
            policy: CorrectionPolicy::proportional(),
        }
    }

    /// A drive at rest with the given heading correction.
    pub fn with_policy(policy: CorrectionPolicy) -> (bot: Mikoto)
        ensures
            bot.wheels() == (WheelCommand { front: 0, left: 0, right: 0 }),
            bot.policy() == policy,
    {
        Mikoto { wheels: WheelCommand { front: 0, left: 0, right: 0 }, policy }
    }

    /// The speeds to set on the wheels.
    pub fn wheel_command(&self) -> (w: WheelCommand)
        ensures
            w == self.wheels(),
            w.in_range(),
    {
        proof {
            use_type_invariant(self);
        }
        self.wheels
    }

    /// The policy that `drive_straight` follows.
    pub fn correction_policy(&self) -> (p: CorrectionPolicy)
        ensures
            p == self.policy(),
    {
        self.policy
    }

    /// Sets the wheels for a direction and a speed.
    pub fn drive(&mut self, direction: Direction, speed: u32) -> (r: Result<(), Error>)
        ensures
            final(self).policy() == old(self).policy(),
            match drive_result(direction, speed) {
                Ok(w) => r is Ok && final(self).wheels() == w,
                Err(e) => r == Err::<(), Error>(e) && final(self).wheels() == old(self).wheels(),
            },
    {
        if !direction.is_valid() {
            return Err(Error::InvalidParameter);
        }
        if speed > 0x7fff_ffff {
            return Err(Error::InvalidPosition);
        }
        let (front, left, right) = direction.motor_direction(speed);
        proof {
            lemma_wheel_speeds_bounded(direction, speed as int);
            lemma_some_wheel_at_full_speed(direction, speed as int);
        }
        let range: InputRange = continuous_range();
        if !(accepts(range, front) && accepts(range, left) && accepts(range, right)) {
            return Err(Error::InvalidPosition);
        }
        self.wheels = WheelCommand { front, left, right };
        Ok(())
    }

    /// Brings every wheel to rest.
    pub fn stop(&mut self) -> (r: Result<(), Error>)
        ensures
            r is Ok,
            final(self).policy() == old(self).policy(),
            final(self).wheels() == (WheelCommand { front: 0, left: 0, right: 0 }),
    {
        self.drive(Direction::Forward, 0)
    }

    /// Drives forward or backward and veers as the policy asks, to bring the
    /// current heading to the desired one.
    pub fn drive_straight(
        &mut self,
        current_yaw: Angle<Radians>,
        desired_angle: Angle<Radians>,
        direction: Direction,
        speed: u32,
    ) -> (r: Result<(), Error>)
        ensures
            final(self).policy() == old(self).policy(),
            match straight_result(
                old(self).policy(),
                old(self).wheels(),
                current_yaw@,
                desired_angle@,
                direction,
                speed,
            ) {
                Ok(w) => r is Ok && final(self).wheels() == w,
                Err(e) => r == Err::<(), Error>(e) && final(self).wheels() == old(self).wheels(),
            },
    {
        let way: VeerOptions = match VeerOptions::try_from(direction) {
            Ok(way) => way,
            Err(e) => {
                return Err(e);
            },
        };
        let error: Angle<Radians> = current_yaw.offset_by(desired_angle);
        match self.policy.decide(error) {
            Correction::Straight => self.drive(way.straight(), speed),
            Correction::VeerLeft { percentage } => self.drive(
                Direction::VeerLeft { direction: way, percentage },
                speed,
            ),
            Correction::VeerRight { percentage } => self.drive(
                Direction::VeerRight { direction: way, percentage },
                speed,
            ),
            Correction::Hold => Ok(()),
        }
    }

    /// Slows the wheel on one side against the faster of the two side
    /// wheels.
    pub fn veer(&mut self, side: Side, percentage: i32) -> (r: Result<(), Error>)
        ensures
            final(self).policy() == old(self).policy(),
            match veer_result(old(self).wheels(), side, percentage as int) {
                Ok(w) => r is Ok && final(self).wheels() == w,
                Err(e) => r == Err::<(), Error>(e) && final(self).wheels() == old(self).wheels(),
            },
    {
        if percentage < 0 || percentage > 100 {
            return Err(Error::InvalidParameter);
        }
        proof {
            use_type_invariant(&*self);
        }
        let left_size: i32 = if self.wheels.left >= 0 {
            self.wheels.left
        } else {
            -self.wheels.left
        };
        let right_size: i32 = if self.wheels.right >= 0 {
            self.wheels.right
        } else {
            -self.wheels.right
        };
        let full: i32 = if left_size >= right_size {
            self.wheels.left
        } else {
            self.wheels.right
        };
        let rest: i32 = 100 - percentage;
        assert(-10_000 <= full * rest <= 10_000) by (nonlinear_arith)
            requires
                -100 <= full <= 100,
                0 <= rest <= 100,
        ;
        let slow: i32 = div_toward_zero((full * rest) as i64, 100) as i32;
        match side {
            Side::Left => {
                self.wheels = WheelCommand { front: self.wheels.front, left: slow, right: full };
            },
            Side::Right => {
                self.wheels = WheelCommand { front: self.wheels.front, left: full, right: slow };
            },
        }
        Ok(())
    }
}

/// Whatever call changes them, the wheels' speeds that a call leaves behind
/// are speeds that the wheels take.
pub proof fn lemma_results_in_range(
    policy: CorrectionPolicy,
    before: WheelCommand,
    current: int,
    desired: int,
    direction: Direction,
    speed: u32,
    side: Side,
    percentage: int,
)
    requires
        before.in_range(),
    ensures
        drive_result(direction, speed) matches Ok(w) ==> w.in_range(),
        straight_result(policy, before, current, desired, direction, speed) matches Ok(w)
            ==> w.in_range(),
        veer_result(before, side, percentage) matches Ok(w) ==> w.in_range(),
{
    lemma_drive_in_range(direction, speed);
    if direction is Forward || direction is Backward {
        let way = if direction is Forward {
            VeerOptions::Forward
        } else {
            VeerOptions::Backward
        };
        match corrected_direction(policy.correction(wrap_half_turn(current - desired)), way) {
            Some(d) => {
                lemma_drive_in_range(d, speed);
            },
            None => {},
        }
    }
    if 0 <= percentage <= 100 {
        lemma_veer_in_range(before, percentage);
    }
}

/// On course nothing is corrected: with the current heading equal to the
/// desired one, `drive_straight` does what `drive` does in the same
/// direction, under either policy.
pub proof fn lemma_on_course_is_plain_drive(
    policy: CorrectionPolicy,
    before: WheelCommand,
    heading: int,
    direction: Direction,
    speed: u32,
)
    requires
        direction is Forward || direction is Backward,
    ensures
        straight_result(policy, before, heading, heading, direction, speed) == drive_result(
            direction,
            speed,
        ),
{
    assert(wrap_half_turn(0) == 0);
    assert(crate::mpu6050::angle::radians_to_degrees(0) == 0);
}

/// Off course the proportional policy slows the wheel on the side toward
/// which the robot has to turn back: the left wheel where the heading error
/// is positive, the right wheel where it is negative. The other wheels keep
/// the full speed, and the wheel is slowed by at least the base percentage
/// of its side.
pub proof fn lemma_off_course_veers_back(
    policy: CorrectionPolicy,
    before: WheelCommand,
    current: int,
    desired: int,
    way: VeerOptions,
    speed: u32,
)
    requires
        policy is Proportional,
        speed <= 100,
        i32::MIN <= current <= i32::MAX,
        i32::MIN <= desired <= i32::MAX,
    ensures
        ({
            let error = wrap_half_turn(current - desired);
            let direction = if way is Forward {
                Direction::Forward
            } else {
                Direction::Backward
            };
            let result = straight_result(policy, before, current, desired, direction, speed);
            &&& result matches Ok(w)
            &&& w.front == way.sign() * speed
            &&& policy.correction(error) matches Correction::VeerLeft { percentage } ==> {
                &&& error > 0
                &&& w.right == way.sign() * speed
                &&& w.left == way.sign() * slowed(speed as int, percentage as int)
                &&& percentage >= crate::steering::min_u32(policy->left_base, 100)
            }
            &&& policy.correction(error) matches Correction::VeerRight { percentage } ==> {
                &&& error < 0
                &&& w.left == way.sign() * speed
                &&& w.right == way.sign() * slowed(speed as int, percentage as int)
                &&& percentage >= crate::steering::min_u32(policy->right_base, 100)
            }
            &&& policy.correction(error) is Straight ==> w.left == w.right && w.left == w.front
        }),
{
    let error = wrap_half_turn(current - desired);
    crate::steering::lemma_proportional_corrects(policy, error);
    match corrected_direction(policy.correction(error), way) {
        Some(d) => {
            lemma_drive_in_range(d, speed);
        },
        None => {},
    }
}

/// A drive that succeeds leaves every wheel within what it takes.
pub proof fn lemma_drive_in_range(direction: Direction, speed: u32)
    ensures
        drive_result(direction, speed) matches Ok(w) ==> w.in_range() && w.triple()
            == direction.wheel_speeds(speed as int),
{
    if direction.valid() && speed <= 100 {
        lemma_wheel_speeds_bounded(direction, speed as int);
    }
}

/// Slowing the faster side wheel's speed keeps it within what a wheel takes
/// and never makes it faster.
pub proof fn lemma_veer_in_range(before: WheelCommand, percentage: int)
    requires
        before.in_range(),
        0 <= percentage <= 100,
    ensures
        -100 <= faster_side(before) <= 100,
        faster_side(before) >= 0 ==> 0 <= trunc_div(faster_side(before) * (100 - percentage), 100)
            <= faster_side(before),
        faster_side(before) <= 0 ==> faster_side(before) <= trunc_div(
            faster_side(before) * (100 - percentage),
            100,
        ) <= 0,
{
    let full = faster_side(before);
    let rest = 100 - percentage;
    if full >= 0 {
        assert(0 <= full * rest <= full * 100) by (nonlinear_arith)
            requires
                0 <= full,
                0 <= rest <= 100,
        ;
    } else {
        assert(0 <= -(full * rest) <= -full * 100) by (nonlinear_arith)
            requires
                full < 0,
                0 <= rest <= 100,
        ;
    }
}

/// Out of range, `veer` fails whatever the side; at the two ends of the
/// range it succeeds: by nothing, both side wheels take the faster one's
/// speed, and by everything, the wheel on the named side stops.
pub proof fn lemma_veer_accepts_whole_range(before: WheelCommand, side: Side, percentage: int)
    ensures
        veer_result(before, side, percentage) is Err <==> (percentage < 0 || percentage > 100),
        veer_result(before, side, percentage) matches Err(e) ==> e == Error::InvalidParameter,
        veer_result(before, side, 0) matches Ok(w) && w.front == before.front && w.left
            == faster_side(before) as i32 && w.right == faster_side(before) as i32,
        veer_result(before, Side::Left, 100) matches Ok(w) && w.left == 0,
        veer_result(before, Side::Right, 100) matches Ok(w) && w.right == 0,
{
    let full = faster_side(before);
    assert(full * 100 / 100 == full);
    assert((-full) * 100 / 100 == -full);
    assert(full * (100 - 0) == full * 100);
    assert(full * (100 - 100) == 0);
}

} // verus!
