//! Orientation sampling and telemetry core.
//!
//! A periodic accelerometer sampler normalizes a raw gravity vector into a
//! fixed-point unit vector, classifies board tilt into one of eight compass
//! directions (or "flat"), and pushes a derived payload record into a
//! fixed-capacity single-producer/single-consumer ring buffer that a second,
//! independently scheduled consumer drains best-effort.

pub mod buffer;
pub mod classify;
pub mod direction;
pub mod logger;
pub mod payload;
pub mod scheduler;
pub mod vector;
