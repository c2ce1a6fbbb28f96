//! The drive controller: from a direction and a speed to the speeds of the
//! three wheels, and the correction that keeps the robot on its heading.

use crate::servo::Error;
use vstd::prelude::*;

verus! {

/// The largest speed a wheel takes, forward or backward.
pub const MAX_SPEED: u32 = 100;

/// The way the robot moves while it veers.
#[derive(Debug, Clone, Copy, PartialEq, Eq, Structural)]
pub enum VeerOptions {
    Forward,
    Backward,
}

impl VeerOptions {
    /// `1` for forward, `-1` for backward.
    pub open spec fn sign(self) -> int {
        match self {
            VeerOptions::Forward => 1,
            VeerOptions::Backward => -1,
        }
    }

    /// The way of a straight direction. A turn or a veer has none.
    pub fn try_from(value: Direction) -> (r: Result<VeerOptions, Error>)
        ensures
            r == (match value {
                Direction::Forward => Ok::<VeerOptions, Error>(VeerOptions::Forward),
                Direction::Backward => Ok(VeerOptions::Backward),
                _ => Err(Error::InvalidParameter),
            }),
    {
        match value {
            Direction::Forward => Ok(VeerOptions::Forward),
            Direction::Backward => Ok(VeerOptions::Backward),
            _ => Err(Error::InvalidParameter),
        }
    }

    /// The straight direction that goes this way.
    pub fn straight(&self) -> (d: Direction)
        ensures
            d == (match *self {
                VeerOptions::Forward => Direction::Forward,
                VeerOptions::Backward => Direction::Backward,
            }),
    {
        match self {
            VeerOptions::Forward => Direction::Forward,
            VeerOptions::Backward => Direction::Backward,
        }
    }
}

/// What the robot is asked to do. A veer slows the wheel on the named side
/// by `percentage` of the speed.
#[derive(Debug, Clone, Copy, PartialEq, Eq, Structural)]
pub enum Direction {
    Forward,
    Backward,
    Left,
    Right,
    VeerRight { direction: VeerOptions, percentage: u32 },
    VeerLeft { direction: VeerOptions, percentage: u32 },
}

/// The speeds of the front, the left and the right wheel, each from
/// `-100` to `100`. Positive is forward.
#[derive(Debug, Clone, Copy, PartialEq, Eq, Structural)]
pub struct WheelCommand {
    pub front: i32,
    pub left: i32,
    pub right: i32,
}

impl WheelCommand {
    /// Whether every wheel's speed is one that the wheels take.
    pub open spec fn in_range(self) -> bool {
        &&& -100 <= self.front <= 100
        &&& -100 <= self.left <= 100
        &&& -100 <= self.right <= 100
    }

    /// The three speeds as integers.
    pub open spec fn triple(self) -> (int, int, int) {
        (self.front as int, self.left as int, self.right as int)
    }
}

/// What is left of `speed` once `percentage` of it is taken off, rounded
/// down.
pub open spec fn slowed(speed: int, percentage: int) -> int {
    speed * (100 - percentage) / 100
}

impl Direction {
    /// Whether a veer's percentage is at most 100. The other directions are
    /// always valid.
    pub open spec fn valid(self) -> bool {
        match self {
            Direction::VeerRight { percentage, .. } => percentage <= 100,
            Direction::VeerLeft { percentage, .. } => percentage <= 100,
            _ => true,
        }
    }

    /// The speeds of the front, left and right wheel for this direction at
    /// `speed`. Straight: all three at the speed, with its sign. A turn on
    /// the spot: the front wheel still and the side wheels against each
    /// other. A veer: the wheel on the named side slowed.
    pub open spec fn wheel_speeds(self, speed: int) -> (int, int, int) {
        match self {
            Direction::Forward => (speed, speed, speed),
            Direction::Backward => (-speed, -speed, -speed),
            Direction::Left => (0, -speed, speed),
            Direction::Right => (0, speed, -speed),
            Direction::VeerRight { direction, percentage } => (
                direction.sign() * speed,
                direction.sign() * speed,
                direction.sign() * slowed(speed, percentage as int),
            ),
            Direction::VeerLeft { direction, percentage } => (
                direction.sign() * speed,
                direction.sign() * slowed(speed, percentage as int),
                direction.sign() * speed,
            ),
        }
    }

    /// Tells whether this direction is valid.
    pub fn is_valid(&self) -> (ok: bool)
        ensures
            ok == self.valid(),
    {
        match *self {
            Direction::VeerRight { direction: _, percentage } => percentage <= 100,
            Direction::VeerLeft { direction: _, percentage } => percentage <= 100,
            _ => true,
        }
    }

    /// The speeds of the front, left and right wheel.
    pub fn motor_direction(&self, speed: u32) -> (r: (i32, i32, i32))
        requires
            self.valid(),
            speed <= i32::MAX,
        ensures
            (r.0 as int, r.1 as int, r.2 as int) == self.wheel_speeds(speed as int),
    {
        let speed: i32 = speed as i32;
        match *self {
            Direction::Forward => (speed, speed, speed),
            Direction::Backward => (-speed, -speed, -speed),
            Direction::Left => (0, -speed, speed),
            Direction::Right => (0, speed, -speed),
            Direction::VeerRight { direction, percentage } => {
                let full: i32 = signed(direction, speed);
                let slow: i32 = signed(direction, slow_down(speed, percentage));
                (full, full, slow)
            },
            Direction::VeerLeft { direction, percentage } => {
                let full: i32 = signed(direction, speed);
                let slow: i32 = signed(direction, slow_down(speed, percentage));
                (full, slow, full)
            },
        }
    }
}

/// A speed with the sign of the way it goes.
fn signed(direction: VeerOptions, speed: i32) -> (r: i32)
    requires
        0 <= speed,
    ensures
        r == direction.sign() * speed,
{
    match direction {
        VeerOptions::Forward => speed,
        VeerOptions::Backward => -speed,
    }
}

/// A speed with a percentage of it taken off.
fn slow_down(speed: i32, percentage: u32) -> (r: i32)
    requires
        0 <= speed,
        percentage <= 100,
    ensures
        r == slowed(speed as int, percentage as int),
        0 <= r <= speed,
{
    let rest: i64 = 100 - percentage as i64;
    assert(0 <= speed * rest <= speed * 100) by (nonlinear_arith)
        requires
            0 <= rest <= 100,
            0 <= speed,
    ;
    let scaled: i64 = speed as i64 * rest;
    (scaled / 100) as i32
}

/// No wheel of a valid direction turns faster than the speed asked for, so
/// up to the largest speed every wheel stays within what it takes.
pub proof fn lemma_wheel_speeds_bounded(direction: Direction, speed: int)
    requires
        direction.valid(),
        0 <= speed,
    ensures
        -speed <= direction.wheel_speeds(speed).0 <= speed,
        -speed <= direction.wheel_speeds(speed).1 <= speed,
        -speed <= direction.wheel_speeds(speed).2 <= speed,
{
    match direction {
        Direction::VeerRight { direction: way, percentage } => {
            lemma_slowed_bounded(speed, percentage as int);
        },
        Direction::VeerLeft { direction: way, percentage } => {
            lemma_slowed_bounded(speed, percentage as int);
        },
        _ => {},
    }
}

/// Taking a percentage off a speed leaves between nothing and all of it.
pub proof fn lemma_slowed_bounded(speed: int, percentage: int)
    requires
        0 <= speed,
        0 <= percentage <= 100,
    ensures
        0 <= slowed(speed, percentage) <= speed,
        slowed(speed, 0) == speed,
        slowed(speed, 100) == 0,
{
    let rest = 100 - percentage;
    assert(0 <= speed * rest <= speed * 100) by (nonlinear_arith)
        requires
            0 <= speed,
            0 <= rest <= 100,
    ;
}

/// Some wheel of every direction turns at the full speed, forward or
/// backward.
pub proof fn lemma_some_wheel_at_full_speed(direction: Direction, speed: int)
    ensures
        direction.wheel_speeds(speed).0 == speed || direction.wheel_speeds(speed).0 == -speed
            || direction.wheel_speeds(speed).1 == -speed || direction.wheel_speeds(speed).1
            == speed,
{
}

/// A veer by nothing is the straight drive, and a veer by everything stops
/// the wheel on the named side.
pub proof fn lemma_veer_extremes(way: VeerOptions, speed: int)
    requires
        0 <= speed,
    ensures
        (Direction::VeerLeft { direction: way, percentage: 0 }).wheel_speeds(speed) == (
            way.sign() * speed,
            way.sign() * speed,
            way.sign() * speed,
        ),
        (Direction::VeerRight { direction: way, percentage: 0 }).wheel_speeds(speed) == (
            way.sign() * speed,
            way.sign() * speed,
            way.sign() * speed,
        ),
        (Direction::VeerLeft { direction: way, percentage: 100 }).wheel_speeds(speed).1 == 0,
        (Direction::VeerRight { direction: way, percentage: 100 }).wheel_speeds(speed).2 == 0,
{
    lemma_slowed_bounded(speed, 0);
}

} // verus!
