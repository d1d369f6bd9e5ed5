//! Verified core of an attitude-estimation pipeline for a small vehicle.
//!
//! The crate holds the decisions of the pipeline and leaves every device to
//! its caller: the caller reads the tick counter and the inertial sensor, runs
//! the fusion filter and the calibration fit, drives the pins and the
//! telemetry link, and tells this crate what came back. Values that the
//! decisions never look into (samples, estimates, errors, the telemetry
//! channel) pass through as type parameters.

pub mod ahrs;
pub mod calibration;
pub mod chrono;
pub mod communication;
pub mod scheduler;
pub mod utils;
