//! Boot mouse: the input report.

use crate::error::UsbHidError;
use vstd::prelude::*;

verus! {

/// Button bit of the left button.
pub const MOUSE_LEFT: u8 = 0x01;

/// Button bit of the right button.
pub const MOUSE_RIGHT: u8 = 0x02;

/// Button bit of the middle button.
pub const MOUSE_MIDDLE: u8 = 0x04;

/// Bytes of an encoded mouse report.
pub const MOUSE_REPORT_SIZE: usize = 3;

/// The report descriptor of the boot mouse: three button bits in one byte,
/// then the relative movement in x and in y, a signed byte each.
pub const BOOT_MOUSE_REPORT_DESCRIPTOR: [u8; 50] = [
    0x05, 0x01, 0x09, 0x02, 0xa1, 0x01, 0x09, 0x01, 0xa1, 0x00, 0x05, 0x09, 0x19, 0x01, 0x29, 0x03,
    0x15, 0x00, 0x25, 0x01, 0x95, 0x03, 0x75, 0x01, 0x81, 0x02, 0x95, 0x01, 0x75, 0x05, 0x81, 0x01,
    0x05, 0x01, 0x09, 0x30, 0x09, 0x31, 0x15, 0x81, 0x25, 0x7f, 0x75, 0x08, 0x95, 0x02, 0x81, 0x06,
    0xc0, 0xc0,
];

/// The buttons that are down and the movement since the last report.
#[derive(Clone, Copy, Debug, PartialEq, Eq, Structural)]
pub struct MouseReport {
    /// The button mask: left is bit 0, right bit 1, middle bit 2.
    pub buttons: u8,
    /// Movement to the right; negative to the left.
    pub x: i8,
    /// Movement down; negative up.
    pub y: i8,
}

impl MouseReport {
    /// The byte encoding: the button mask, then `x` and `y` in two's
    /// complement.
    pub open spec fn wire(&self) -> Seq<u8> {
        seq![self.buttons, self.x as u8, self.y as u8]
    }

    /// What `decode` makes of `bytes`.
    pub open spec fn parse(bytes: Seq<u8>) -> Result<MouseReport, UsbHidError> {
        if bytes.len() == 3 {
            Ok(MouseReport { buttons: bytes[0], x: bytes[1] as i8, y: bytes[2] as i8 })
        } else {
            Err(UsbHidError::MalformedReport)
        }
    }

    /// The report with the same buttons and no movement.
    pub open spec fn at_rest(&self) -> MouseReport {
        MouseReport { buttons: self.buttons, x: 0, y: 0 }
    }

    /// Encodes the report. Total: every report has an encoding.
    pub fn encode(&self) -> (bytes: [u8; 3])
        ensures
            bytes@ == self.wire(),
    {
        [self.buttons, self.x as u8, self.y as u8]
    }

    /// Decodes a report. Fails if and only if `bytes` is not three bytes long;
    /// the bytes themselves are not examined.
    pub fn decode(bytes: &[u8]) -> (report: Result<MouseReport, UsbHidError>)
        ensures
            report == MouseReport::parse(bytes@),
    {
        if bytes.len() != MOUSE_REPORT_SIZE {
            return Err(UsbHidError::MalformedReport);
        }
        Ok(MouseReport { buttons: bytes[0], x: bytes[1] as i8, y: bytes[2] as i8 })
    }
}

impl Default for MouseReport {
    /// The report with no button down and no movement.
    fn default() -> (report: MouseReport)
        ensures
            report == (MouseReport { buttons: 0, x: 0, y: 0 }),
    {
        MouseReport { buttons: 0, x: 0, y: 0 }
    }
}

/// Decoding an encoded mouse report gives the report back.
pub proof fn lemma_mouse_round_trip(report: MouseReport)
    ensures
        MouseReport::parse(report.wire()) == Ok::<MouseReport, UsbHidError>(report),
{
    let x = report.x;
    let y = report.y;
    assert((x as u8) as i8 == x) by (bit_vector);
    assert((y as u8) as i8 == y) by (bit_vector);
}

} // verus!
