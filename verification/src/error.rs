//! Errors of the HID functions and outcomes of transfer attempts.

use vstd::prelude::*;

verus! {

/// What can go wrong in a HID function.
#[derive(Clone, Copy, Debug, PartialEq, Eq, Structural)]
pub enum UsbHidError {
    /// The transport is busy; the operation is to be retried later.
    WouldBlock,
    /// A report's byte length does not match the size its function declares.
    MalformedReport,
    /// Any other failure of the transport; the device halts on it.
    TransportFault,
}

/// What the transport said of one non-blocking write.
#[derive(Clone, Copy, Debug, PartialEq, Eq, Structural)]
pub enum WriteOutcome {
    /// The endpoint took the report.
    Sent,
    /// The endpoint buffer is still full.
    WouldBlock,
    /// The endpoint is stalled or gone.
    Fault,
}

impl WriteOutcome {
    /// The result that a write with this outcome returns.
    pub open spec fn as_result(self) -> Result<(), UsbHidError> {
        match self {
            WriteOutcome::Sent => Ok(()),
            WriteOutcome::WouldBlock => Err(UsbHidError::WouldBlock),
            WriteOutcome::Fault => Err(UsbHidError::TransportFault),
        }
    }

    /// Maps the outcome to the result of the write.
    pub fn into_result(self) -> (r: Result<(), UsbHidError>)
        ensures
            r == self.as_result(),
    {
        match self {
            WriteOutcome::Sent => Ok(()),
            WriteOutcome::WouldBlock => Err(UsbHidError::WouldBlock),
            WriteOutcome::Fault => Err(UsbHidError::TransportFault),
        }
    }
}

/// What the transport said of one non-blocking read of a one-byte OUT report.
#[derive(Clone, Copy, Debug, PartialEq, Eq, Structural)]
pub enum ReadOutcome {
    /// A report arrived; this is its byte.
    Received(u8),
    /// Nothing is pending.
    WouldBlock,
    /// The endpoint is stalled or gone.
    Fault,
}

} // verus!
