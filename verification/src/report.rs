//! The reports of all functions as one type, so that a slot or the scheduler
//! can hold and compare the report of whichever function it serves.

use crate::device::consumer::ConsumerReport;
use crate::device::joystick::JoystickReport;
use crate::device::keyboard::KeyboardReport;
use crate::device::mouse::MouseReport;
use crate::error::UsbHidError;
use vstd::prelude::*;

verus! {

/// The HID functions that a device can offer. The set is closed.
#[derive(Clone, Copy, Debug, PartialEq, Eq, Structural)]
pub enum Function {
    /// The boot keyboard.
    Keyboard,
    /// The boot mouse.
    Mouse,
    /// The consumer-control keypad.
    Consumer,
    /// The joystick.
    Joystick,
}

/// An input report of one of the functions.
#[derive(Clone, Copy, Debug, PartialEq, Eq)]
pub enum Report {
    /// A report of the boot keyboard.
    Keyboard(KeyboardReport),
    /// A report of the boot mouse.
    Mouse(MouseReport),
    /// A report of the consumer-control keypad.
    Consumer(ConsumerReport),
    /// A report of the joystick.
    Joystick(JoystickReport),
}

impl Report {
    /// The function that the report belongs to.
    pub open spec fn function_of(&self) -> Function {
        match *self {
            Report::Keyboard(_) => Function::Keyboard,
            Report::Mouse(_) => Function::Mouse,
            Report::Consumer(_) => Function::Consumer,
            Report::Joystick(_) => Function::Joystick,
        }
    }

    /// The byte encoding of the report, as its function lays it out.
    pub open spec fn wire(&self) -> Seq<u8> {
        match *self {
            Report::Keyboard(r) => r.wire(),
            Report::Mouse(r) => r.wire(),
            Report::Consumer(r) => r.wire(),
            Report::Joystick(r) => r.wire(),
        }
    }

    /// What `decode` makes of `bytes` for `function`.
    pub open spec fn parse(function: Function, bytes: Seq<u8>) -> Result<Report, UsbHidError> {
        match function {
            Function::Keyboard => match KeyboardReport::parse(bytes) {
                Ok(r) => Ok(Report::Keyboard(r)),
                Err(e) => Err(e),
            },
            Function::Mouse => match MouseReport::parse(bytes) {
                Ok(r) => Ok(Report::Mouse(r)),
                Err(e) => Err(e),
            },
            Function::Consumer => match ConsumerReport::parse(bytes) {
                Ok(r) => Ok(Report::Consumer(r)),
                Err(e) => Err(e),
            },
            Function::Joystick => match JoystickReport::parse(bytes) {
                Ok(r) => Ok(Report::Joystick(r)),
                Err(e) => Err(e),
            },
        }
    }

    /// Whether the report can be told from its encoding. This fails only of
    /// a joystick report whose hat switch does not fit four bits.
    pub open spec fn representable(&self) -> bool {
        match *self {
            Report::Joystick(r) => r.representable(),
            _ => true,
        }
    }

    /// The report as it is remembered once it was sent. The movement of a
    /// mouse report is relative and is spent by sending it, so it is remembered
    /// with no movement; any other report is remembered as it is.
    pub open spec fn settled(&self) -> Report {
        match *self {
            Report::Mouse(r) => Report::Mouse(r.at_rest()),
            _ => *self,
        }
    }

    /// The function that the report belongs to.
    pub fn function(&self) -> (function: Function)
        ensures
            function == self.function_of(),
    {
        match self {
            Report::Keyboard(_) => Function::Keyboard,
            Report::Mouse(_) => Function::Mouse,
            Report::Consumer(_) => Function::Consumer,
            Report::Joystick(_) => Function::Joystick,
        }
    }

    /// Whether the two reports are of the same function and equal field by
    /// field.
    pub fn same(&self, other: &Report) -> (equal: bool)
        ensures
            equal == (*self == *other),
    {
        match (self, other) {
            (Report::Keyboard(a), Report::Keyboard(b)) => a.same(b),
            (Report::Mouse(a), Report::Mouse(b)) => a.buttons == b.buttons && a.x == b.x && a.y
                == b.y,
            (Report::Consumer(a), Report::Consumer(b)) => a.same(b),
            (Report::Joystick(a), Report::Joystick(b)) => a.lx == b.lx && a.ly == b.ly && a.rx
                == b.rx && a.ry == b.ry && a.lz == b.lz && a.rz == b.rz && a.buttons == b.buttons
                && a.hat_switch == b.hat_switch,
            _ => false,
        }
    }

    /// The report as it is remembered once it was sent: see `settled`.
    pub fn settle(&self) -> (remembered: Report)
        ensures
            remembered == self.settled(),
    {
        match self {
            Report::Mouse(r) => Report::Mouse(MouseReport { buttons: r.buttons, x: 0, y: 0 }),
            _ => *self,
        }
    }

    /// Encodes the report for the wire. Total: every report has an encoding.
    pub fn encode(&self) -> (bytes: Vec<u8>)
        ensures
            bytes@ == self.wire(),
    {
        let mut bytes: Vec<u8> = Vec::new();
        match self {
            Report::Keyboard(r) => {
                let packet = r.encode();
                bytes.extend_from_slice(packet.as_slice());
            },
            Report::Mouse(r) => {
                let packet = r.encode();
                bytes.extend_from_slice(packet.as_slice());
            },
            Report::Consumer(r) => {
                let packet = r.encode();
                bytes.extend_from_slice(packet.as_slice());
            },
            Report::Joystick(r) => {
                let packet = r.encode();
                bytes.extend_from_slice(packet.as_slice());
            },
        }
        assert(bytes@ =~= self.wire());
        bytes
    }

    /// Decodes a report of `function`. Fails with `MalformedReport` if and
    /// only if `bytes` does not have the length that the function declares:
    /// eight bytes for the keyboard, the consumer keypad and the joystick,
    /// three for the mouse.
    pub fn decode(function: Function, bytes: &[u8]) -> (report: Result<Report, UsbHidError>)
        ensures
            report == Report::parse(function, bytes@),
    {
        match function {
            Function::Keyboard => match KeyboardReport::decode(bytes) {
                Ok(r) => Ok(Report::Keyboard(r)),
                Err(e) => Err(e),
            },
            Function::Mouse => match MouseReport::decode(bytes) {
                Ok(r) => Ok(Report::Mouse(r)),
                Err(e) => Err(e),
            },
            Function::Consumer => match ConsumerReport::decode(bytes) {
                Ok(r) => Ok(Report::Consumer(r)),
                Err(e) => Err(e),
            },
            Function::Joystick => match JoystickReport::decode(bytes) {
                Ok(r) => Ok(Report::Joystick(r)),
                Err(e) => Err(e),
            },
        }
    }
}

/// Bytes of an encoded report of `function`.
pub open spec fn report_size(function: Function) -> nat {
    match function {
        Function::Mouse => 3,
        _ => 8,
    }
}

/// Decoding an encoded report gives the report back: this holds of every
/// report of every function that is representable.
pub proof fn lemma_round_trip(report: Report)
    requires
        report.representable(),
    ensures
        Report::parse(report.function_of(), report.wire()) == Ok::<Report, UsbHidError>(report),
{
    match report {
        Report::Keyboard(r) => crate::device::keyboard::lemma_keyboard_round_trip(r),
        Report::Mouse(r) => crate::device::mouse::lemma_mouse_round_trip(r),
        Report::Consumer(r) => crate::device::consumer::lemma_consumer_round_trip(r),
        Report::Joystick(r) => crate::device::joystick::lemma_joystick_round_trip(r),
    }
}

/// Decoding succeeds exactly on the byte strings of the function's declared
/// size, and fails with `MalformedReport` on every other.
pub proof fn lemma_decode_checks_length_only(function: Function, bytes: Seq<u8>)
    ensures
        Report::parse(function, bytes) is Ok <==> bytes.len() == report_size(function),
        Report::parse(function, bytes) is Err ==> Report::parse(function, bytes)
            == Err::<Report, UsbHidError>(UsbHidError::MalformedReport),
        Report::parse(function, bytes) matches Ok(r) ==> r.function_of() == function,
{
}

/// Encoding is one-to-one on representable reports of one function: two that
/// differ have different encodings.
pub proof fn lemma_encoding_is_injective(a: Report, b: Report)
    requires
        a.representable(),
        b.representable(),
        a.function_of() == b.function_of(),
        a.wire() == b.wire(),
    ensures
        a == b,
{
    lemma_round_trip(a);
    lemma_round_trip(b);
}

} // verus!
