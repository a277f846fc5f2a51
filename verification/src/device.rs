//! The HID functions and their reports.
//!
//! Each report is a fixed-size record with one byte encoding, least
//! significant byte first, as its function's report descriptor lays it out.

pub mod consumer;
pub mod joystick;
pub mod keyboard;
pub mod mouse;
