//! Orientation readings: angles as fixed-point integers with their unit in
//! the type, and the yaw, pitch and roll of one reading.

pub mod unit;
pub mod angle;
pub mod reading;

pub use angle::Angle;
pub use reading::YawPitchRoll;
