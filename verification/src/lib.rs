//! Mission control for a small three-wheeled robot: the mapping from a drive
//! direction to wheel speeds, the heading correction that keeps it on course,
//! the timer that filters sensor noise, the line-of-sight model of the arena
//! and the phase machine that runs the course.
//!
//! Angles are fixed-point integers in millionths of their unit, distances are
//! integers in millimetres and time is a count of ticks, so every decision in
//! here is exact integer arithmetic.

pub mod controller;
pub mod debounce;
pub mod drive;
pub mod fixed;
pub mod geometry;
pub mod hc_sr04;
pub mod mission;
pub mod mpu6050;
pub mod servo;
pub mod steering;
pub mod ultrasonic;
pub mod urm37;

pub use controller::Mikoto;
pub use controller::Side;
pub use debounce::DebounceTimer;
pub use drive::Direction;
pub use drive::VeerOptions;
pub use drive::WheelCommand;
pub use geometry::Arena;
pub use geometry::Geometry;
pub use mission::Mission;
pub use mission::MissionConfig;
pub use mission::SensorSnapshot;
pub use mission::Task;
pub use mpu6050::unit as angle_unit;
pub use mpu6050::Angle;
pub use mpu6050::YawPitchRoll;
pub use servo::Error;
pub use servo::InputRange;
pub use servo::ServoRanges;
pub use steering::Correction;
pub use steering::CorrectionPolicy;
pub use ultrasonic::unit as distance_unit;
