//! The machine itself: the command of each tick and the step to the next
//! phase.

use crate::controller::{drive_result, straight_result, Mikoto};
use crate::debounce::DebounceTimer;
use crate::drive::{Direction, WheelCommand};
use crate::geometry::{Geometry, SightLine};
use crate::mission::config::{ContactGuards, MissionConfig, Scan, SensorSnapshot, Task};
use crate::mpu6050::angle::{degrees_to_radians, wrap_half_turn, Angle};
use crate::mpu6050::unit::{Degrees, Radians};
use crate::servo::Error;
use crate::steering::CorrectionPolicy;
use vstd::prelude::*;

verus! {

/// The command that a tick gives to the drive.
#[derive(Debug, Clone, Copy, PartialEq, Eq, Structural)]
pub enum DriveRequest {
    /// Bring the wheels to rest.
    Stop,
    /// Drive in a direction at a speed.
    Drive { direction: Direction, speed: u32 },
    /// Drive forward at a speed and hold the desired heading. Both headings
    /// are in millionths of a radian.
    Straight { current: i32, desired: i32, speed: u32 },
}

/// The wheels' speeds after the drive has carried out a request, or the
/// error that leaves them as they were.
pub open spec fn request_result(
    policy: CorrectionPolicy,
    before: WheelCommand,
    request: DriveRequest,
) -> Result<WheelCommand, Error> {
    match request {
        DriveRequest::Stop => drive_result(Direction::Forward, 0),
        DriveRequest::Drive { direction, speed } => drive_result(direction, speed),
        DriveRequest::Straight { current, desired, speed } => straight_result(
            policy,
            before,
            current as int,
            desired as int,
            Direction::Forward,
            speed,
        ),
    }
}

/// A timer and its answer after a tick on which its condition holds or does
/// not hold: while it holds the timer is asked to confirm, and as soon as it
/// does not the timer is idle again.
pub open spec fn guarded(timer: DebounceTimer, holds: bool, now: u32, window: u32) -> (
    DebounceTimer,
    bool,
) {
    if holds {
        timer.confirm_step(now, window)
    } else {
        (DebounceTimer::idle(), false)
    }
}

/// The phase that follows a phase.
pub open spec fn successor(task: Task) -> Task {
    match task {
        Task::WaitForButton => Task::ApproachWall,
        Task::ApproachWall => Task::ClimbUp,
        Task::ClimbUp => Task::ClimbOver,
        Task::ClimbOver => Task::ClimbDown,
        Task::ClimbDown => Task::FindPole,
        Task::FindPole => Task::ApproachPole,
        Task::ApproachPole => Task::WaitForButton,
    }
}

/// The mission: the phase, and what the phases remember from tick to tick.
#[derive(Debug)]
pub struct Mission {
    /// The phase that is active.
    pub task: Task,
    pub config: MissionConfig,
    pub geometry: Geometry,
    /// The timer of the phase's pitch condition.
    pub timer: DebounceTimer,
    /// The timer of the roll condition near the pole.
    pub roll_timer: DebounceTimer,
    pub scan: Scan,
    /// Whether the robot rests because the pole was detected.
    pub scan_pause: bool,
    /// The heading to hold, in millionths of a degree.
    pub offset_angle: i32,
    /// The pitch at rest before the pole, in millionths of a degree.
    pub pole_zero_pitch: i32,
    /// The roll at rest before the pole, in millionths of a degree.
    pub pole_zero_roll: i32,
}

impl Mission {
    /// Whether the range is so far below the expected one that something
    /// stands in the line of sight. A negative range is no reading.
    pub open spec fn detects(self, snapshot: SensorSnapshot, cosine: u32) -> bool {
        &&& snapshot.range >= 0
        &&& self.geometry@.expected_range(wrap_half_turn(snapshot.yaw@), cosine) matches Some(
            expected,
        )
        &&& snapshot.range <= expected - self.config.range_buffer
    }

    /// Whether the range says that the pole is reached. A negative range is
    /// no reading.
    pub open spec fn in_contact_range(self, snapshot: SensorSnapshot) -> bool {
        0 <= snapshot.range < self.config.contact_range
    }

    /// Whether the pitch has risen above the one at rest by more than the
    /// margin.
    pub open spec fn pitch_raised(self, snapshot: SensorSnapshot) -> bool {
        snapshot.pitch_degrees() > self.pole_zero_pitch + self.config.pitch_margin@
    }

    /// Whether the roll counts and is at least the margin away from the one
    /// at rest.
    pub open spec fn rolled(self, snapshot: SensorSnapshot) -> bool {
        &&& self.config.contact_guards is PitchAndRoll
        &&& {
            ||| snapshot.roll_degrees() - self.pole_zero_roll >= self.config.roll_margin@
            ||| self.pole_zero_roll - snapshot.roll_degrees() >= self.config.roll_margin@
        }
    }

    /// Whether the approach to the pole ends on this tick: the range says
    /// so, or the raised pitch or the roll has lasted its window.
    pub open spec fn arrives(self, snapshot: SensorSnapshot, now: u32) -> bool {
        ||| self.in_contact_range(snapshot)
        ||| guarded(self.timer, self.pitch_raised(snapshot), now, self.config.contact_window).1
        ||| guarded(self.roll_timer, self.rolled(snapshot), now, self.config.contact_window).1
    }

    /// The command that the tick gives to the drive.
    pub open spec fn request(self, snapshot: SensorSnapshot, now: u32) -> DriveRequest {
        let cruise = DriveRequest::Drive {
            direction: Direction::Forward,
            speed: self.config.cruise_speed,
        };
        let hold_heading = DriveRequest::Straight {
            current: snapshot.yaw@ as i32,
            desired: degrees_to_radians(self.offset_angle as int) as i32,
            speed: self.config.cruise_speed,
        };
        match self.task {
            Task::WaitForButton => DriveRequest::Stop,
            Task::ApproachWall => if snapshot.pitch_degrees() <= self.config.level_pitch@ {
                hold_heading
            } else {
                cruise
            },
            Task::ClimbUp => cruise,
            Task::ClimbOver => if snapshot.pitch_degrees() <= self.config.crest_pitch@ {
                DriveRequest::Drive { direction: Direction::Forward, speed: self.config.crest_speed }
            } else {
                cruise
            },
            Task::ClimbDown => cruise,
            Task::FindPole => match self.scan {
                Scan::Stop => DriveRequest::Stop,
                Scan::Left => DriveRequest::Drive {
                    direction: Direction::Left,
                    speed: self.config.scan_speed,
                },
                Scan::Right => DriveRequest::Drive {
                    direction: Direction::Right,
                    speed: self.config.scan_speed,
                },
            },
            Task::ApproachPole => if self.arrives(snapshot, now) {
                DriveRequest::Stop
            } else {
                hold_heading
            },
        }
    }

    /// The mission after a tick whose command the drive has carried out.
    pub open spec fn advanced(self, snapshot: SensorSnapshot, now: u32, cosine: u32) -> Mission {
        match self.task {
            Task::WaitForButton => self,
            Task::ApproachWall => if snapshot.pitch_degrees() >= self.config.mount_pitch@ {
                Mission { task: Task::ClimbUp, ..self }
            } else {
                self
            },
            Task::ClimbUp => {
                let (timer, over) = guarded(
                    self.timer,
                    snapshot.pitch_degrees() <= self.config.peak_pitch@,
                    now,
                    self.config.peak_window,
                );
                Mission {
                    task: if over {
                        Task::ClimbOver
                    } else {
                        Task::ClimbUp
                    },
                    timer,
                    ..self
                }
            },
            Task::ClimbOver => {
                let (timer, over) = guarded(
                    self.timer,
                    snapshot.pitch_degrees() <= self.config.descent_pitch@,
                    now,
                    self.config.descent_window,
                );
                Mission {
                    task: if over {
                        Task::ClimbDown
                    } else {
                        Task::ClimbOver
                    },
                    timer,
                    ..self
                }
            },
            Task::ClimbDown => {
                let (timer, over) = guarded(
                    self.timer,
                    snapshot.pitch_degrees() >= self.config.floor_pitch@,
                    now,
                    self.config.floor_window,
                );
                Mission {
                    task: if over {
                        Task::FindPole
                    } else {
                        Task::ClimbDown
                    },
                    timer,
                    ..self
                }
            },
            Task::FindPole => match self.scan {
                Scan::Stop => if self.scan_pause {
                    let (timer, settled) = self.timer.confirm_step(now, self.config.settle_window);
                    if settled {
                        Mission {
                            task: Task::ApproachPole,
                            timer,
                            scan_pause: false,
                            offset_angle: snapshot.yaw_degrees() as i32,
                            pole_zero_pitch: snapshot.pitch_degrees() as i32,
                            pole_zero_roll: snapshot.roll_degrees() as i32,
                            ..self
                        }
                    } else {
                        Mission { timer, ..self }
                    }
                } else {
                    Mission { scan: Scan::Left, ..self }
                },
                Scan::Left => if snapshot.yaw_degrees() <= -self.config.scan_angle@ {
                    Mission { scan: Scan::Right, ..self }
                } else if self.detects(snapshot, cosine) {
                    Mission { scan: Scan::Stop, scan_pause: true, ..self }
                } else {
                    self
                },
                Scan::Right => if snapshot.yaw_degrees() >= self.config.scan_angle@ {
                    Mission { scan: Scan::Left, ..self }
                } else if self.detects(snapshot, cosine) {
                    Mission { scan: Scan::Stop, scan_pause: true, ..self }
                } else {
                    self
                },
            },
            Task::ApproachPole => if self.arrives(snapshot, now) {
                Mission {
                    task: Task::WaitForButton,
                    timer: DebounceTimer::idle(),
                    roll_timer: DebounceTimer::idle(),
                    offset_angle: 0,
                    ..self
                }
            } else {
                Mission {
                    timer: guarded(
                        self.timer,
                        self.pitch_raised(snapshot),
                        now,
                        self.config.contact_window,
                    ).0,
                    roll_timer: guarded(
                        self.roll_timer,
                        self.rolled(snapshot),
                        now,
                        self.config.contact_window,
                    ).0,
                    ..self
                }
            },
        }
    }

    /// A mission that waits for its start.
    pub fn new(config: MissionConfig, geometry: Geometry) -> (m: Mission)
        ensures
            m == (Mission {
                task: Task::WaitForButton,
                config,
                geometry,
                timer: DebounceTimer::idle(),
                roll_timer: DebounceTimer::idle(),
                scan: Scan::Stop,
                scan_pause: false,
                offset_angle: 0,
                pole_zero_pitch: 0,
                pole_zero_roll: 0,
            }),
    {
        Mission {
            task: Task::WaitForButton,
            config,
            geometry,
            timer: DebounceTimer::new(),
            roll_timer: DebounceTimer::new(),
            scan: Scan::Stop,
            scan_pause: false,
            offset_angle: 0,
            pole_zero_pitch: 0,
            pole_zero_roll: 0,
        }
    }

    /// Puts the mission into a phase, whatever phase it is in. Nothing else
    /// changes.
    pub fn request_phase(&mut self, phase: Task)
        ensures
            *final(self) == (Mission { task: phase, ..*old(self) }),
    {
        self.task = phase;
    }

    /// One tick: gives the drive the command of the phase and, if the drive
    /// has carried it out, moves on. `now` is the tick count, and `cosine`
    /// the cosine, in millionths, of the angle of `sight_line` for this
    /// snapshot. If the drive refuses the command, the wheels and the
    /// mission stay as they were.
    pub fn tick(&mut self, bot: &mut Mikoto, snapshot: &SensorSnapshot, now: u32, cosine: u32) -> (r:
        Result<(), Error>)
        ensures
            final(bot).policy() == old(bot).policy(),
            match request_result(
                old(bot).policy(),
                old(bot).wheels(),
                old(self).request(*snapshot, now),
            ) {
                Ok(w) => {
                    &&& r is Ok
                    &&& final(bot).wheels() == w
                    &&& *final(self) == old(self).advanced(*snapshot, now, cosine)
                },
                Err(e) => {
                    &&& r == Err::<(), Error>(e)
                    &&& final(bot).wheels() == old(bot).wheels()
                    &&& *final(self) == *old(self)
                },
            },
    {
        let request: DriveRequest = self.plan(snapshot, now);
        match issue(bot, request) {
            Ok(()) => {
                self.advance(snapshot, now, cosine);
                Ok(())
            },
            Err(e) => Err(e),
        }
    }

    /// The command of this tick.
    pub fn plan(&self, snapshot: &SensorSnapshot, now: u32) -> (request: DriveRequest)
        ensures
            request == self.request(*snapshot, now),
    {
        let pitch: i32 = snapshot.pitch_in_degrees();
        let cruise = DriveRequest::Drive {
            direction: Direction::Forward,
            speed: self.config.cruise_speed,
        };
        match self.task {
            Task::WaitForButton => DriveRequest::Stop,
            Task::ApproachWall => {
                if pitch <= self.config.level_pitch.value() {
                    self.hold_heading(snapshot)
                } else {
                    cruise
                }
            },
            Task::ClimbUp => cruise,
            Task::ClimbOver => {
                if pitch <= self.config.crest_pitch.value() {
                    DriveRequest::Drive {
                        direction: Direction::Forward,
                        speed: self.config.crest_speed,
                    }
                } else {
                    cruise
                }
            },
            Task::ClimbDown => cruise,
            Task::FindPole => match self.scan {
                Scan::Stop => DriveRequest::Stop,
                Scan::Left => DriveRequest::Drive {
                    direction: Direction::Left,
                    speed: self.config.scan_speed,
                },
                Scan::Right => DriveRequest::Drive {
                    direction: Direction::Right,
                    speed: self.config.scan_speed,
                },
            },
            Task::ApproachPole => {
                let mut pitch_timer: DebounceTimer = self.timer;
                let mut roll_timer: DebounceTimer = self.roll_timer;
                if self.reaches_pole(snapshot, now, &mut pitch_timer, &mut roll_timer) {
                    DriveRequest::Stop
                } else {
                    self.hold_heading(snapshot)
                }
            },
        }
    }

    /// The command to go on at full speed along the stored heading.
    fn hold_heading(&self, snapshot: &SensorSnapshot) -> (request: DriveRequest)
        ensures
            request == (DriveRequest::Straight {
                current: snapshot.yaw@ as i32,
                desired: degrees_to_radians(self.offset_angle as int) as i32,
                speed: self.config.cruise_speed,
            }),
    {
        let desired: Angle<Radians> = Angle::<Degrees>::new(self.offset_angle).to_radians();
        DriveRequest::Straight {
            current: snapshot.yaw.value(),
            desired: desired.value(),
            speed: self.config.cruise_speed,
        }
    }

    /// The boundary in sight at the snapshot's heading. The cosine of its
    /// angle is what `tick` is to be given.
    pub fn sight_line(&self, snapshot: &SensorSnapshot) -> (s: SightLine)
        ensures
            s == self.geometry@.sight_line(wrap_half_turn(snapshot.yaw@)),
    {
        self.geometry.sight_line(snapshot.yaw.normalized())
    }

    /// Tells whether the pole is detected at the snapshot's heading.
    pub fn pole_in_sight(&self, snapshot: &SensorSnapshot, cosine: u32) -> (seen: bool)
        ensures
            seen == self.detects(*snapshot, cosine),
    {
        if snapshot.range < 0 {
            return false;
        }
        match self.geometry.expected_range(snapshot.yaw.normalized(), cosine) {
            Some(expected) => snapshot.range as i64 <= expected - self.config.range_buffer as i64,
            None => false,
        }
    }

    /// Asks both contact timers and tells whether the approach ends.
    fn reaches_pole(
        &self,
        snapshot: &SensorSnapshot,
        now: u32,
        pitch_timer: &mut DebounceTimer,
        roll_timer: &mut DebounceTimer,
    ) -> (arrived: bool)
        requires
            *old(pitch_timer) == self.timer,
            *old(roll_timer) == self.roll_timer,
        ensures
            arrived == self.arrives(*snapshot, now),
            *final(pitch_timer) == guarded(
                self.timer,
                self.pitch_raised(*snapshot),
                now,
                self.config.contact_window,
            ).0,
            *final(roll_timer) == guarded(
                self.roll_timer,
                self.rolled(*snapshot),
                now,
                self.config.contact_window,
            ).0,
    {
        let pitch: i64 = snapshot.pitch_in_degrees() as i64;
        let roll: i64 = snapshot.roll_in_degrees() as i64;
        let near: bool = 0 <= snapshot.range && snapshot.range < self.config.contact_range;
        let raised: bool = pitch > self.pole_zero_pitch as i64
            + self.config.pitch_margin.value() as i64;
        let margin: i64 = self.config.roll_margin.value() as i64;
        let tilt: i64 = roll - self.pole_zero_roll as i64;
        let rolled: bool = match self.config.contact_guards {
            ContactGuards::PitchOnly => false,
            ContactGuards::PitchAndRoll => tilt >= margin || -tilt >= margin,
        };
        let by_pitch: bool = guard(pitch_timer, raised, now, self.config.contact_window);
        let by_roll: bool = guard(roll_timer, rolled, now, self.config.contact_window);
        near || by_pitch || by_roll
    }

    /// Moves the mission on by one tick.
    fn advance(&mut self, snapshot: &SensorSnapshot, now: u32, cosine: u32)
        ensures
            *final(self) == old(self).advanced(*snapshot, now, cosine),
    {
        let yaw: i32 = snapshot.yaw_in_degrees();
        let pitch: i32 = snapshot.pitch_in_degrees();
        let roll: i32 = snapshot.roll_in_degrees();
        match self.task {
            Task::WaitForButton => {},
            Task::ApproachWall => {
                if pitch >= self.config.mount_pitch.value() {
                    self.task = Task::ClimbUp;
                }
            },
            Task::ClimbUp => {
                let holds: bool = pitch <= self.config.peak_pitch.value();
                if guard(&mut self.timer, holds, now, self.config.peak_window) {
                    self.task = Task::ClimbOver;
                }
            },
            Task::ClimbOver => {
                let holds: bool = pitch <= self.config.descent_pitch.value();
                if guard(&mut self.timer, holds, now, self.config.descent_window) {
                    self.task = Task::ClimbDown;
                }
            },
            Task::ClimbDown => {
                let holds: bool = pitch >= self.config.floor_pitch.value();
                if guard(&mut self.timer, holds, now, self.config.floor_window) {
                    self.task = Task::FindPole;
                }
            },
            Task::FindPole => match self.scan {
                Scan::Stop => {
                    if self.scan_pause {
                        if self.timer.confirm(now, self.config.settle_window) {
                            self.offset_angle = yaw;
                            self.pole_zero_pitch = pitch;
                            self.pole_zero_roll = roll;
                            self.scan_pause = false;
                            self.task = Task::ApproachPole;
                        }
                    } else {
                        self.scan = Scan::Left;
                    }
                },
                Scan::Left => {
                    if yaw as i64 <= -(self.config.scan_angle.value() as i64) {
                        self.scan = Scan::Right;
                    } else if self.pole_in_sight(snapshot, cosine) {
                        self.scan = Scan::Stop;
                        self.scan_pause = true;
                    }
                },
                Scan::Right => {
                    if yaw >= self.config.scan_angle.value() {
                        self.scan = Scan::Left;
                    } else if self.pole_in_sight(snapshot, cosine) {
                        self.scan = Scan::Stop;
                        self.scan_pause = true;
                    }
                },
            },
            Task::ApproachPole => {
                let mut pitch_timer: DebounceTimer = self.timer;
                let mut roll_timer: DebounceTimer = self.roll_timer;
                if self.reaches_pole(snapshot, now, &mut pitch_timer, &mut roll_timer) {
                    self.timer.cancel();
                    self.roll_timer.cancel();
                    self.offset_angle = 0;
                    self.task = Task::WaitForButton;
                } else {
                    self.timer = pitch_timer;
                    self.roll_timer = roll_timer;
                }
            },
        }
    }
}

/// Asks a timer on a tick on which its condition holds, and gives it up on
/// one on which it does not.
pub fn guard(timer: &mut DebounceTimer, holds: bool, now: u32, window: u32) -> (confirmed: bool)
    ensures
        (*final(timer), confirmed) == guarded(*old(timer), holds, now, window),
{
    if holds {
        timer.confirm(now, window)
    } else {
        timer.cancel();
        false
    }
}

/// Hands a request to the drive.
pub fn issue(bot: &mut Mikoto, request: DriveRequest) -> (r: Result<(), Error>)
    ensures
        final(bot).policy() == old(bot).policy(),
        match request_result(old(bot).policy(), old(bot).wheels(), request) {
            Ok(w) => r is Ok && final(bot).wheels() == w,
            Err(e) => r == Err::<(), Error>(e) && final(bot).wheels() == old(bot).wheels(),
        },
{
    match request {
        DriveRequest::Stop => bot.stop(),
        DriveRequest::Drive { direction, speed } => bot.drive(direction, speed),
        DriveRequest::Straight { current, desired, speed } => bot.drive_straight(
            Angle::new(current),
            Angle::new(desired),
            Direction::Forward,
            speed,
        ),
    }
}

} // verus!
