//! Orientation decision engine for convertible devices.
//!
//! The crate turns accelerometer samples into one of four screen
//! orientations, decides when a rotation is applied or held back, and
//! describes the display-server and input-device commands that carry a
//! rotation out. Reading sensors and running commands is left to the caller:
//! every function here computes on plain values.

pub mod backend;
pub mod classifier;
pub mod command;
pub mod controller;
pub mod inputs;
pub mod orientation;
pub mod pattern;
pub mod policy;
pub mod rotation;
pub mod sensor;
pub mod text;
