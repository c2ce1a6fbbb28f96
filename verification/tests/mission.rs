use mikoto_bot::controller::Mikoto;
use mikoto_bot::debounce::DebounceTimer;
use mikoto_bot::drive::{Direction, WheelCommand};
use mikoto_bot::geometry::{Arena, Geometry};
use mikoto_bot::mission::{
    guard, issue, ContactGuards, DriveRequest, Mission, MissionConfig, Scan, SensorSnapshot, Task,
};
use mikoto_bot::mpu6050::{Angle, YawPitchRoll};
use mikoto_bot::servo::Error;
use mikoto_bot::steering::CorrectionPolicy;

const ONE: u32 = 1_000_000;

fn geometry() -> Geometry {
    Geometry::new(Arena {
        course_width: 2370,
        course_length: 2100,
        ramp_length: 1424,
        ramp_width: 318,
        sensor_offset: 100,
        corner_angle: 513_745,
        ramp_angle: 546_900,
    })
    .unwrap()
}

fn mission() -> Mission {
    Mission::new(MissionConfig::course(), geometry())
}

fn mission_in(task: Task) -> Mission {
    let mut m = mission();
    m.request_phase(task);
    m
}

/// A snapshot from angles in millionths of a radian.
fn at(yaw: i32, pitch: i32, roll: i32, range: i16) -> SensorSnapshot {
    SensorSnapshot { yaw: Angle::new(yaw), pitch: Angle::new(pitch), roll: Angle::new(roll), range }
}

/// Millionths of a radian for a number of degrees, rounded up in size.
fn degrees(d: f64) -> i32 {
    let r = d * std::f64::consts::PI / 180.0 * 1e6;
    if r >= 0.0 {
        r.ceil() as i32 + 1
    } else {
        r.floor() as i32 - 1
    }
}

fn wheels(front: i32, left: i32, right: i32) -> WheelCommand {
    WheelCommand { front, left, right }
}

#[test]
fn course_config() {
    let c = MissionConfig::course();
    assert_eq!((c.cruise_speed, c.crest_speed, c.scan_speed), (100, 15, 5));
    assert_eq!(c.mount_pitch.value(), 60_000_000);
    assert_eq!(c.level_pitch.value(), 5_000_000);
    assert_eq!((c.peak_pitch.value(), c.peak_window), (45_000_000, 500_000));
    assert_eq!(c.crest_pitch.value(), -45_000_000);
    assert_eq!((c.descent_pitch.value(), c.descent_window), (-75_000_000, 1_500_000));
    assert_eq!((c.floor_pitch.value(), c.floor_window), (-10_000_000, 800_000));
    assert_eq!(c.scan_angle.value(), 80_000_000);
    assert_eq!((c.range_buffer, c.settle_window), (250, 500_000));
    assert_eq!(c.contact_range, 150);
    assert_eq!((c.pitch_margin.value(), c.roll_margin.value()), (2_000_000, 3_000_000));
    assert_eq!(c.contact_window, 250_000);
    assert_eq!(c.contact_guards, ContactGuards::PitchAndRoll);
}

#[test]
fn snapshot_from_a_reading() {
    let reading = YawPitchRoll::new(Angle::new(1), Angle::new(2), Angle::new(3));
    let s = SensorSnapshot::new(reading, 450);
    assert_eq!((s.yaw.value(), s.pitch.value(), s.roll.value(), s.range), (1, 2, 3, 450));
}

#[test]
fn new_mission_waits() {
    let m = mission();
    assert_eq!(m.task, Task::WaitForButton);
    assert_eq!(m.scan, Scan::Stop);
    assert!(!m.scan_pause);
    assert_eq!(m.timer, DebounceTimer::new());
    assert_eq!(m.roll_timer, DebounceTimer::new());
    assert_eq!((m.offset_angle, m.pole_zero_pitch, m.pole_zero_roll), (0, 0, 0));
}

#[test]
fn waiting_mission_never_starts_by_itself() {
    let mut m = mission();
    let mut bot = Mikoto::new();
    bot.drive(Direction::Forward, 50).unwrap();
    for (i, s) in [
        at(0, 0, 0, 1000),
        at(0, degrees(61.0), 0, 1000),
        at(degrees(-90.0), degrees(-80.0), degrees(10.0), 10),
        at(0, 0, 0, -1),
    ]
    .iter()
    .enumerate()
    {
        assert_eq!(m.tick(&mut bot, s, 1_000_000 * i as u32, ONE), Ok(()));
        assert_eq!(m.task, Task::WaitForButton);
        assert_eq!(bot.wheel_command(), wheels(0, 0, 0));
        assert_eq!(m.timer, DebounceTimer::new());
    }
}

#[test]
fn request_phase_changes_the_phase_only() {
    let mut m = mission();
    m.timer = DebounceTimer { armed: true, start_tick: 9 };
    m.scan = Scan::Right;
    m.offset_angle = 77;
    for task in [
        Task::ApproachWall,
        Task::ApproachPole,
        Task::ClimbDown,
        Task::WaitForButton,
        Task::FindPole,
        Task::ClimbUp,
        Task::ClimbOver,
    ] {
        m.request_phase(task);
        assert_eq!(m.task, task);
        assert_eq!(m.timer, DebounceTimer { armed: true, start_tick: 9 });
        assert_eq!(m.scan, Scan::Right);
        assert_eq!(m.offset_angle, 77);
    }
}

#[test]
fn approach_wall_holds_the_heading_while_level() {
    let mut m = mission_in(Task::ApproachWall);
    let mut bot = Mikoto::new();
    assert_eq!(m.tick(&mut bot, &at(0, 0, 0, 1000), 0, ONE), Ok(()));
    assert_eq!(bot.wheel_command(), wheels(100, 100, 100));
    assert_eq!(m.tick(&mut bot, &at(17_453, 0, 0, 1000), 1, ONE), Ok(()));
    assert_eq!(bot.wheel_command(), wheels(100, 26, 100));
    assert_eq!(m.tick(&mut bot, &at(-17_453, 0, 0, 1000), 2, ONE), Ok(()));
    assert_eq!(bot.wheel_command(), wheels(100, 100, 16));
    // off the floor the heading is left alone
    assert_eq!(m.tick(&mut bot, &at(-17_453, degrees(5.0), 0, 1000), 3, ONE), Ok(()));
    assert_eq!(bot.wheel_command(), wheels(100, 100, 100));
    assert_eq!(m.task, Task::ApproachWall);
}

#[test]
fn approach_wall_holds_the_stored_heading() {
    let mut m = mission_in(Task::ApproachWall);
    m.offset_angle = 30_000_000;
    let mut bot = Mikoto::new();
    // 30 degrees are 523_598 millionths of a radian, rounded toward zero
    assert_eq!(m.plan(&at(523_598, 0, 0, 1000), 0), DriveRequest::Straight {
        current: 523_598,
        desired: 523_598,
        speed: 100
    });
    assert_eq!(m.tick(&mut bot, &at(523_598, 0, 0, 1000), 0, ONE), Ok(()));
    assert_eq!(bot.wheel_command(), wheels(100, 100, 100));
    assert_eq!(m.tick(&mut bot, &at(0, 0, 0, 1000), 0, ONE), Ok(()));
    assert_eq!(bot.wheel_command(), wheels(100, 100, 0));
}

#[test]
fn approach_wall_mounts_at_the_threshold_and_not_before() {
    let mut m = mission_in(Task::ApproachWall);
    let mut bot = Mikoto::new();
    // 59.999962 degrees
    assert_eq!(m.tick(&mut bot, &at(0, 1_047_197, 0, 1000), 0, ONE), Ok(()));
    assert_eq!(m.task, Task::ApproachWall);
    assert_eq!(m.tick(&mut bot, &at(0, degrees(30.0), 0, 1000), 1, ONE), Ok(()));
    assert_eq!(m.task, Task::ApproachWall);
    // 60.000019 degrees
    assert_eq!(m.tick(&mut bot, &at(0, 1_047_198, 0, 1000), 2, ONE), Ok(()));
    assert_eq!(m.task, Task::ClimbUp);
    assert_eq!(bot.wheel_command(), wheels(100, 100, 100));
    assert_eq!(m.timer, DebounceTimer::new());
}

#[test]
fn angles_count_as_angles_within_half_a_turn() {
    let mut m = mission_in(Task::ApproachWall);
    let mut bot = Mikoto::new();
    // 60.000019 degrees and a full turn
    assert_eq!(at(0, 1_047_198 + 6_283_186, 0, 1000).pitch_in_degrees(), 60_000_019);
    assert_eq!(m.tick(&mut bot, &at(0, 1_047_198 + 6_283_186, 0, 1000), 0, ONE), Ok(()));
    assert_eq!(m.task, Task::ClimbUp);
    let s = at(-6_283_186 + 200_000, 3_141_594, -3_141_593, 1000);
    assert_eq!(s.yaw_in_degrees(), 11_459_154);
    assert_eq!(s.pitch_in_degrees(), -179_999_942);
    assert_eq!(s.roll_in_degrees(), 180_000_000);
    let m = mission_in(Task::FindPole);
    assert_eq!(m.sight_line(&s), m.geometry.sight_line(Angle::new(200_000)));
    assert!(m.pole_in_sight(&at(-6_283_186 + 200_000, 0, 0, 1792), 980_067));
    assert!(!m.pole_in_sight(&at(-6_283_186 + 200_000, 0, 0, 1793), 980_067));
}

#[test]
fn climb_up_ends_once_the_pitch_has_stayed_low() {
    let mut m = mission_in(Task::ClimbUp);
    let mut bot = Mikoto::new();
    assert_eq!(m.tick(&mut bot, &at(0, degrees(70.0), 0, 1000), 0, ONE), Ok(()));
    assert_eq!(m.task, Task::ClimbUp);
    assert!(!m.timer.armed);
    assert_eq!(bot.wheel_command(), wheels(100, 100, 100));
    assert_eq!(m.tick(&mut bot, &at(0, degrees(44.0), 0, 1000), 1_000, ONE), Ok(()));
    assert_eq!(m.timer, DebounceTimer { armed: true, start_tick: 1_000 });
    assert_eq!(m.tick(&mut bot, &at(0, degrees(44.0), 0, 1000), 500_999, ONE), Ok(()));
    assert_eq!(m.task, Task::ClimbUp);
    assert_eq!(m.tick(&mut bot, &at(0, degrees(44.0), 0, 1000), 501_000, ONE), Ok(()));
    assert_eq!(m.task, Task::ClimbOver);
    assert_eq!(m.timer, DebounceTimer::new());
}

#[test]
fn climb_up_starts_over_when_the_pitch_rises_again() {
    let mut m = mission_in(Task::ClimbUp);
    let mut bot = Mikoto::new();
    m.tick(&mut bot, &at(0, degrees(44.0), 0, 1000), 0, ONE).unwrap();
    m.tick(&mut bot, &at(0, degrees(44.0), 0, 1000), 400_000, ONE).unwrap();
    m.tick(&mut bot, &at(0, degrees(46.0), 0, 1000), 450_000, ONE).unwrap();
    assert_eq!(m.timer, DebounceTimer::new());
    m.tick(&mut bot, &at(0, degrees(44.0), 0, 1000), 600_000, ONE).unwrap();
    assert_eq!(m.task, Task::ClimbUp);
    assert_eq!(m.timer, DebounceTimer { armed: true, start_tick: 600_000 });
    m.tick(&mut bot, &at(0, degrees(44.0), 0, 1000), 1_099_999, ONE).unwrap();
    assert_eq!(m.task, Task::ClimbUp);
    m.tick(&mut bot, &at(0, degrees(44.0), 0, 1000), 1_100_000, ONE).unwrap();
    assert_eq!(m.task, Task::ClimbOver);
}

#[test]
fn climb_over_slows_down_and_ends_on_the_far_side() {
    let mut m = mission_in(Task::ClimbOver);
    let mut bot = Mikoto::new();
    m.tick(&mut bot, &at(0, degrees(10.0), 0, 1000), 0, ONE).unwrap();
    assert_eq!(bot.wheel_command(), wheels(100, 100, 100));
    m.tick(&mut bot, &at(0, degrees(-46.0), 0, 1000), 1, ONE).unwrap();
    assert_eq!(bot.wheel_command(), wheels(15, 15, 15));
    assert!(!m.timer.armed);
    m.tick(&mut bot, &at(0, degrees(-76.0), 0, 1000), 10, ONE).unwrap();
    assert_eq!(m.timer, DebounceTimer { armed: true, start_tick: 10 });
    m.tick(&mut bot, &at(0, degrees(-76.0), 0, 1000), 1_500_009, ONE).unwrap();
    assert_eq!(m.task, Task::ClimbOver);
    m.tick(&mut bot, &at(0, degrees(-76.0), 0, 1000), 1_500_010, ONE).unwrap();
    assert_eq!(m.task, Task::ClimbDown);
    assert_eq!(bot.wheel_command(), wheels(15, 15, 15));
}

#[test]
fn climb_down_ends_on_the_floor() {
    let mut m = mission_in(Task::ClimbDown);
    let mut bot = Mikoto::new();
    m.tick(&mut bot, &at(0, degrees(-60.0), 0, 1000), 0, ONE).unwrap();
    assert!(!m.timer.armed);
    assert_eq!(bot.wheel_command(), wheels(100, 100, 100));
    m.tick(&mut bot, &at(0, degrees(-9.0) + 10, 0, 1000), 5, ONE).unwrap();
    assert!(m.timer.armed);
    m.tick(&mut bot, &at(0, 0, 0, 1000), 800_004, ONE).unwrap();
    assert_eq!(m.task, Task::ClimbDown);
    m.tick(&mut bot, &at(0, 0, 0, 1000), 800_005, ONE).unwrap();
    assert_eq!(m.task, Task::FindPole);
    assert_eq!(m.scan, Scan::Stop);
}

#[test]
fn find_pole_sweeps_left_then_right() {
    let mut m = mission_in(Task::FindPole);
    let mut bot = Mikoto::new();
    bot.drive(Direction::Forward, 100).unwrap();
    m.tick(&mut bot, &at(0, 0, 0, 2000), 0, ONE).unwrap();
    assert_eq!(bot.wheel_command(), wheels(0, 0, 0));
    assert_eq!(m.scan, Scan::Left);
    m.tick(&mut bot, &at(0, 0, 0, 2000), 1, ONE).unwrap();
    assert_eq!(bot.wheel_command(), wheels(0, -5, 5));
    assert_eq!(m.scan, Scan::Left);
    // 80 degrees to the left: turn back
    m.tick(&mut bot, &at(degrees(-80.0), 0, 0, 100), 2, 984_808).unwrap();
    assert_eq!(m.scan, Scan::Right);
    assert_eq!(m.task, Task::FindPole);
    assert!(!m.scan_pause);
    m.tick(&mut bot, &at(degrees(-79.0) + 10, 0, 0, 2000), 3, 984_808).unwrap();
    assert_eq!(bot.wheel_command(), wheels(0, 5, -5));
    assert_eq!(m.scan, Scan::Right);
    m.tick(&mut bot, &at(degrees(80.0), 0, 0, 100), 4, 984_808).unwrap();
    assert_eq!(m.scan, Scan::Left);
    assert_eq!(m.task, Task::FindPole);
}

#[test]
fn find_pole_detects_a_short_range() {
    for scan in [Scan::Left, Scan::Right] {
        let mut m = mission_in(Task::FindPole);
        m.scan = scan;
        let mut bot = Mikoto::new();
        // expected 2042, so 1792 is the longest range that counts
        m.tick(&mut bot, &at(200_000, 0, 0, 1793), 0, 980_067).unwrap();
        assert_eq!(m.scan, scan);
        assert!(!m.scan_pause);
        m.tick(&mut bot, &at(200_000, 0, 0, 1792), 1, 980_067).unwrap();
        assert_eq!(m.scan, Scan::Stop);
        assert!(m.scan_pause);
        assert_eq!(m.task, Task::FindPole);
    }
}

#[test]
fn find_pole_takes_no_reading_for_a_detection() {
    let mut m = mission_in(Task::FindPole);
    m.scan = Scan::Left;
    let mut bot = Mikoto::new();
    m.tick(&mut bot, &at(0, 0, 0, -1), 0, ONE).unwrap();
    assert_eq!(m.scan, Scan::Left);
    assert!(!m.pole_in_sight(&at(0, 0, 0, -1), ONE));
    assert!(!m.pole_in_sight(&at(0, 0, 0, i16::MIN), ONE));
    assert!(m.pole_in_sight(&at(0, 0, 0, 0), ONE));
    assert!(m.pole_in_sight(&at(0, 0, 0, 1750), ONE));
    assert!(!m.pole_in_sight(&at(0, 0, 0, 1751), ONE));
    // without a cosine nothing is expected
    assert!(!m.pole_in_sight(&at(0, 0, 0, 10), 0));
    m.tick(&mut bot, &at(0, 0, 0, 10), 1, 0).unwrap();
    assert_eq!(m.scan, Scan::Left);
}

#[test]
fn find_pole_settles_then_takes_its_bearings() {
    let mut m = mission_in(Task::FindPole);
    m.scan = Scan::Right;
    let mut bot = Mikoto::new();
    m.tick(&mut bot, &at(200_000, 0, 0, 1500), 0, 980_067).unwrap();
    assert!(m.scan_pause);
    assert_eq!(bot.wheel_command(), wheels(0, 5, -5));
    m.tick(&mut bot, &at(210_000, 1_000, -2_000, 1500), 100, 980_067).unwrap();
    assert_eq!(bot.wheel_command(), wheels(0, 0, 0));
    assert_eq!(m.timer, DebounceTimer { armed: true, start_tick: 100 });
    m.tick(&mut bot, &at(220_000, 1_000, -2_000, 1500), 500_099, 980_067).unwrap();
    assert_eq!(m.task, Task::FindPole);
    m.tick(&mut bot, &at(230_000, 17_453, -34_907, 1500), 500_100, 980_067).unwrap();
    assert_eq!(m.task, Task::ApproachPole);
    assert!(!m.scan_pause);
    assert_eq!(m.scan, Scan::Stop);
    assert_eq!(m.offset_angle, 13_178_027);
    assert_eq!(m.pole_zero_pitch, 999_983);
    assert_eq!(m.pole_zero_roll, -2_000_023);
    assert_eq!(m.timer, DebounceTimer::new());
}

fn near_the_pole(guards: ContactGuards) -> Mission {
    let mut config = MissionConfig::course();
    config.contact_guards = guards;
    let mut m = Mission::new(config, geometry());
    m.request_phase(Task::ApproachPole);
    m.offset_angle = 10_000_000;
    m.pole_zero_pitch = 1_000_000;
    m.pole_zero_roll = -1_000_000;
    m
}

#[test]
fn approach_pole_drives_along_the_bearing() {
    let mut m = near_the_pole(ContactGuards::PitchAndRoll);
    let mut bot = Mikoto::new();
    // ten degrees are 174_532 millionths of a radian, rounded toward zero
    m.tick(&mut bot, &at(174_532, 17_453, -17_453, 1000), 0, ONE).unwrap();
    assert_eq!(bot.wheel_command(), wheels(100, 100, 100));
    m.tick(&mut bot, &at(174_532 + 17_453, 17_453, -17_453, 1000), 1, ONE).unwrap();
    assert_eq!(bot.wheel_command(), wheels(100, 26, 100));
    assert_eq!(m.task, Task::ApproachPole);
    assert_eq!(m.offset_angle, 10_000_000);
}

#[test]
fn approach_pole_ends_at_the_contact_range() {
    let mut m = near_the_pole(ContactGuards::PitchAndRoll);
    let mut bot = Mikoto::new();
    m.tick(&mut bot, &at(174_532, 17_453, -17_453, 150), 0, ONE).unwrap();
    assert_eq!(m.task, Task::ApproachPole);
    m.tick(&mut bot, &at(174_532, 17_453, -17_453, -5), 1, ONE).unwrap();
    assert_eq!(m.task, Task::ApproachPole);
    assert_eq!(bot.wheel_command(), wheels(100, 100, 100));
    m.tick(&mut bot, &at(174_532, 17_453, -17_453, 149), 2, ONE).unwrap();
    assert_eq!(m.task, Task::WaitForButton);
    assert_eq!(bot.wheel_command(), wheels(0, 0, 0));
    assert_eq!(m.offset_angle, 0);
}

#[test]
fn approach_pole_ends_after_a_lasting_rise_of_the_pitch() {
    for guards in [ContactGuards::PitchOnly, ContactGuards::PitchAndRoll] {
        let mut m = near_the_pole(guards);
        let mut bot = Mikoto::new();
        // at rest 1 degree, margin 2 degrees: 2.999949 degrees is not above, 3.000006 is
        m.tick(&mut bot, &at(174_532, 52_359, -17_453, 1000), 0, ONE).unwrap();
        assert!(!m.timer.armed);
        m.tick(&mut bot, &at(174_532, 52_360, -17_453, 1000), 10, ONE).unwrap();
        assert_eq!(m.timer, DebounceTimer { armed: true, start_tick: 10 });
        assert_eq!(bot.wheel_command(), wheels(100, 100, 100));
        m.tick(&mut bot, &at(174_532, 52_361, -17_453, 1000), 250_009, ONE).unwrap();
        assert_eq!(m.task, Task::ApproachPole);
        m.tick(&mut bot, &at(174_532, 52_361, -17_453, 1000), 250_010, ONE).unwrap();
        assert_eq!(m.task, Task::WaitForButton);
        assert_eq!(bot.wheel_command(), wheels(0, 0, 0));
        assert_eq!(m.offset_angle, 0);
        assert_eq!(m.timer, DebounceTimer::new());
        assert_eq!(m.roll_timer, DebounceTimer::new());
    }
}

#[test]
fn approach_pole_forgets_a_rise_that_goes_away() {
    let mut m = near_the_pole(ContactGuards::PitchAndRoll);
    let mut bot = Mikoto::new();
    m.tick(&mut bot, &at(174_532, 60_000, -17_453, 1000), 0, ONE).unwrap();
    assert!(m.timer.armed);
    m.tick(&mut bot, &at(174_532, 17_453, -17_453, 1000), 200_000, ONE).unwrap();
    assert_eq!(m.timer, DebounceTimer::new());
    m.tick(&mut bot, &at(174_532, 60_000, -17_453, 1000), 300_000, ONE).unwrap();
    assert_eq!(m.task, Task::ApproachPole);
    assert_eq!(m.timer, DebounceTimer { armed: true, start_tick: 300_000 });
    m.tick(&mut bot, &at(174_532, 60_000, -17_453, 1000), 549_999, ONE).unwrap();
    assert_eq!(m.task, Task::ApproachPole);
    m.tick(&mut bot, &at(174_532, 60_000, -17_453, 1000), 550_000, ONE).unwrap();
    assert_eq!(m.task, Task::WaitForButton);
}

#[test]
fn approach_pole_ends_after_a_lasting_roll() {
    for roll in [34_907, -69_814] {
        // at rest -1 degree, margin 3 degrees: 2.000023 and -4.000046 degrees
        let mut m = near_the_pole(ContactGuards::PitchAndRoll);
        let mut bot = Mikoto::new();
        m.tick(&mut bot, &at(174_532, 17_453, roll, 1000), 7, ONE).unwrap();
        assert_eq!(m.roll_timer, DebounceTimer { armed: true, start_tick: 7 });
        assert!(!m.timer.armed);
        m.tick(&mut bot, &at(174_532, 17_453, roll, 1000), 250_006, ONE).unwrap();
        assert_eq!(m.task, Task::ApproachPole);
        m.tick(&mut bot, &at(174_532, 17_453, roll, 1000), 250_007, ONE).unwrap();
        assert_eq!(m.task, Task::WaitForButton);
        assert_eq!(bot.wheel_command(), wheels(0, 0, 0));
    }
}

#[test]
fn approach_pole_roll_margin_is_exact() {
    let mut m = near_the_pole(ContactGuards::PitchAndRoll);
    let mut bot = Mikoto::new();
    // 1.999966 degrees: short of the margin by 34 millionths
    m.tick(&mut bot, &at(174_532, 17_453, 34_906, 1000), 0, ONE).unwrap();
    assert!(!m.roll_timer.armed);
    m.pole_zero_roll = -1_000_034;
    m.tick(&mut bot, &at(174_532, 17_453, 34_906, 1000), 0, ONE).unwrap();
    assert!(m.roll_timer.armed);
}

#[test]
fn approach_pole_ignores_the_roll_where_only_the_pitch_counts() {
    let mut m = near_the_pole(ContactGuards::PitchOnly);
    let mut bot = Mikoto::new();
    for now in [0u32, 250_000, 500_000, 4_000_000_000] {
        m.tick(&mut bot, &at(174_532, 17_453, 600_000, 1000), now, ONE).unwrap();
        assert_eq!(m.task, Task::ApproachPole);
        assert!(!m.roll_timer.armed);
        assert_eq!(bot.wheel_command(), wheels(100, 100, 100));
    }
}

#[test]
fn a_refused_command_leaves_the_mission_as_it_is() {
    let mut config = MissionConfig::course();
    config.cruise_speed = 101;
    let mut m = Mission::new(config, geometry());
    m.request_phase(Task::ApproachWall);
    let mut bot = Mikoto::new();
    bot.drive(Direction::Left, 5).unwrap();
    // the pitch is past the threshold, but the drive refuses the speed
    assert_eq!(
        m.tick(&mut bot, &at(0, degrees(61.0), 0, 1000), 0, ONE),
        Err(Error::InvalidPosition)
    );
    assert_eq!(m.task, Task::ApproachWall);
    assert_eq!(bot.wheel_command(), wheels(0, -5, 5));
    m.request_phase(Task::ClimbUp);
    assert_eq!(
        m.tick(&mut bot, &at(0, degrees(44.0), 0, 1000), 5, ONE),
        Err(Error::InvalidPosition)
    );
    assert_eq!(m.timer, DebounceTimer::new());
    assert_eq!(m.task, Task::ClimbUp);
    // a rest is never refused
    m.request_phase(Task::WaitForButton);
    assert_eq!(m.tick(&mut bot, &at(0, 0, 0, 1000), 6, ONE), Ok(()));
    assert_eq!(bot.wheel_command(), wheels(0, 0, 0));
}

#[test]
fn a_forced_phase_is_taken_up_with_what_is_there() {
    let mut m = mission();
    m.timer = DebounceTimer { armed: true, start_tick: 0 };
    m.request_phase(Task::ClimbDown);
    let mut bot = Mikoto::new();
    m.tick(&mut bot, &at(0, 0, 0, 1000), 900_000, ONE).unwrap();
    assert_eq!(m.task, Task::FindPole);
    m.request_phase(Task::ApproachWall);
    m.tick(&mut bot, &at(0, 0, 0, 1000), 900_001, ONE).unwrap();
    assert_eq!(m.task, Task::ApproachWall);
    assert_eq!(bot.wheel_command(), wheels(100, 100, 100));
}

#[test]
fn the_whole_course() {
    let mut m = mission();
    let mut bot = Mikoto::new();
    let mut now = 0u32;
    let mut seen = vec![m.task];
    let mut step = |m: &mut Mission, bot: &mut Mikoto, s: SensorSnapshot, dt: u32, cosine: u32| {
        now += dt;
        m.tick(bot, &s, now, cosine).unwrap();
        if *seen.last().unwrap() != m.task {
            seen.push(m.task);
        }
    };
    step(&mut m, &mut bot, at(0, 0, 0, 2000), 1, ONE);
    m.request_phase(Task::ApproachWall);
    step(&mut m, &mut bot, at(0, 0, 0, 2000), 1, ONE);
    step(&mut m, &mut bot, at(0, degrees(61.0), 0, 50), 1, ONE);
    step(&mut m, &mut bot, at(0, degrees(40.0), 0, 50), 1, ONE);
    step(&mut m, &mut bot, at(0, degrees(40.0), 0, 50), 500_000, ONE);
    step(&mut m, &mut bot, at(0, degrees(-80.0), 0, 50), 1, ONE);
    step(&mut m, &mut bot, at(0, degrees(-80.0), 0, 50), 1_500_000, ONE);
    step(&mut m, &mut bot, at(0, 0, 0, 2000), 1, ONE);
    step(&mut m, &mut bot, at(0, 0, 0, 2000), 800_000, ONE);
    step(&mut m, &mut bot, at(0, 0, 0, 2000), 1, ONE);
    step(&mut m, &mut bot, at(-100_000, 0, 0, 2000), 1, 995_004);
    step(&mut m, &mut bot, at(-200_000, 0, 0, 1200), 1, 980_067);
    step(&mut m, &mut bot, at(-200_000, 0, 0, 1200), 1, 980_067);
    step(&mut m, &mut bot, at(-200_000, 0, 0, 1200), 500_000, 980_067);
    step(&mut m, &mut bot, at(-200_000, 0, 0, 1000), 1, 980_067);
    step(&mut m, &mut bot, at(-200_000, 0, 0, 149), 1, 980_067);
    assert_eq!(
        seen,
        vec![
            Task::WaitForButton,
            Task::ApproachWall,
            Task::ClimbUp,
            Task::ClimbOver,
            Task::ClimbDown,
            Task::FindPole,
            Task::ApproachPole,
            Task::WaitForButton,
        ]
    );
    assert_eq!(bot.wheel_command(), wheels(0, 0, 0));
    assert_eq!(m.offset_angle, 0);
}

#[test]
fn guard_asks_or_gives_up() {
    let mut t = DebounceTimer::new();
    assert!(!guard(&mut t, true, 5, 10));
    assert_eq!(t, DebounceTimer { armed: true, start_tick: 5 });
    assert!(!guard(&mut t, false, 20, 10));
    assert_eq!(t, DebounceTimer::new());
    assert!(!guard(&mut t, true, 30, 10));
    assert!(guard(&mut t, true, 40, 10));
    assert_eq!(t, DebounceTimer::new());
}

#[test]
fn issue_hands_each_request_to_the_drive() {
    let mut bot = Mikoto::with_policy(CorrectionPolicy::proportional());
    let go = DriveRequest::Drive { direction: Direction::Backward, speed: 20 };
    assert_eq!(issue(&mut bot, go), Ok(()));
    assert_eq!(bot.wheel_command(), wheels(-20, -20, -20));
    let hold = DriveRequest::Straight { current: -17_453, desired: 0, speed: 100 };
    assert_eq!(issue(&mut bot, hold), Ok(()));
    assert_eq!(bot.wheel_command(), wheels(100, 100, 16));
    let fast = DriveRequest::Drive { direction: Direction::Forward, speed: 200 };
    assert_eq!(issue(&mut bot, fast), Err(Error::InvalidPosition));
    assert_eq!(bot.wheel_command(), wheels(100, 100, 16));
    assert_eq!(issue(&mut bot, DriveRequest::Stop), Ok(()));
    assert_eq!(bot.wheel_command(), wheels(0, 0, 0));
}

#[test]
fn plan_names_the_command_of_each_phase() {
    let cruise = DriveRequest::Drive { direction: Direction::Forward, speed: 100 };
    let level = at(0, 0, 0, 1000);
    assert_eq!(mission_in(Task::WaitForButton).plan(&level, 0), DriveRequest::Stop);
    assert_eq!(
        mission_in(Task::ApproachWall).plan(&level, 0),
        DriveRequest::Straight { current: 0, desired: 0, speed: 100 }
    );
    assert_eq!(mission_in(Task::ApproachWall).plan(&at(0, degrees(6.0), 0, 1000), 0), cruise);
    assert_eq!(mission_in(Task::ClimbUp).plan(&level, 0), cruise);
    assert_eq!(mission_in(Task::ClimbOver).plan(&level, 0), cruise);
    assert_eq!(
        mission_in(Task::ClimbOver).plan(&at(0, degrees(-45.0), 0, 1000), 0),
        DriveRequest::Drive { direction: Direction::Forward, speed: 15 }
    );
    assert_eq!(mission_in(Task::ClimbDown).plan(&level, 0), cruise);
    assert_eq!(mission_in(Task::FindPole).plan(&level, 0), DriveRequest::Stop);
    assert_eq!(
        mission_in(Task::ApproachPole).plan(&level, 0),
        DriveRequest::Straight { current: 0, desired: 0, speed: 100 }
    );
    assert_eq!(mission_in(Task::ApproachPole).plan(&at(0, 0, 0, 10), 0), DriveRequest::Stop);
}
