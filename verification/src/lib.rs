//! Polling and report scheduling for a composite USB HID device.
//!
//! A boot keyboard, a boot mouse and a consumer-control keypad share one USB
//! connection. This crate decides when their inputs are sampled, when a report
//! has to go out, and what happens when the transport refuses a write. It does
//! no I/O and reads no clock: the caller performs each [`scheduler::Action`],
//! and reports what came of it as a [`scheduler::Event`].
//!
//! - [`device`] holds the reports of each function and their byte encodings.
//! - [`report`] unites them in one type.
//! - [`input`] maps the sampled input lines to reports.
//! - [`timer`] holds the countdowns and the idle timer.
//! - [`slot`] is what is kept per function: the report sent last and the
//!   timers.
//! - [`scheduler`] runs the loop over the three functions.
//! - [`interface`] holds what is configured of an interface at setup.
//! - [`error`] holds the errors and the outcomes of transfers.

pub mod device;
pub mod error;
pub mod input;
pub mod interface;
pub mod report;
pub mod scheduler;
pub mod slot;
pub mod timer;
