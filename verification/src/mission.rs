//! The course as a machine of phases. Every tick it reads one snapshot of
//! the sensors, gives the drive one command and decides whether the phase is
//! over.

pub mod config;
pub mod machine;
pub mod laws;

pub use config::ContactGuards;
pub use config::MissionConfig;
pub use config::Scan;
pub use config::SensorSnapshot;
pub use config::Task;
pub use machine::guard;
pub use machine::issue;
pub use machine::DriveRequest;
pub use machine::Mission;
