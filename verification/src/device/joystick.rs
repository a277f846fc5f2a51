//! Joystick: six axes, eight buttons and a hat switch.

use crate::error::{UsbHidError, WriteOutcome};
use crate::interface::{InterfaceConfig, InterfaceProtocol};
use crate::report::Report;
use crate::slot::FunctionSlot;
use vstd::prelude::*;

verus! {

/// Bytes of an encoded joystick report.
pub const JOYSTICK_REPORT_SIZE: usize = 8;

/// Largest value of the hat switch, which has four bits.
pub const JOYSTICK_HAT_MAX: u8 = 0x0F;

/// The report descriptor of the joystick: a first collection of four axes and
/// a second of two, one byte each, then eight one-bit buttons, then two
/// four-bit hat switches that share the last byte.
pub const JOYSTICK_DESCRIPTOR: [u8; 79] = [
    0x05, 0x01, 0x09, 0x04, 0xa1, 0x01, 0x09, 0x01, 0xa1, 0x00, 0x09, 0x30, 0x09, 0x31, 0x09, 0x33,
    0x09, 0x34, 0x15, 0x00, 0x25, 0xff, 0x75, 0x08, 0x95, 0x04, 0x81, 0x02, 0xc0, 0xa1, 0x00, 0x09,
    0x32, 0x09, 0x35, 0x15, 0x00, 0x25, 0xff, 0x75, 0x08, 0x95, 0x02, 0x81, 0x02, 0xc0, 0x05, 0x09,
    0x19, 0x01, 0x29, 0x08, 0x15, 0x00, 0x25, 0x01, 0x75, 0x01, 0x95, 0x08, 0x81, 0x02, 0x05, 0x01,
    0x09, 0x39, 0x09, 0x39, 0x15, 0x01, 0x25, 0x08, 0x95, 0x02, 0x75, 0x04, 0x81, 0x02, 0xc0,
];

/// The state of the joystick.
#[derive(Clone, Copy, Debug, PartialEq, Eq, Structural)]
pub struct JoystickReport {
    /// Left stick, horizontal.
    pub lx: u8,
    /// Left stick, vertical.
    pub ly: u8,
    /// Right stick, horizontal.
    pub rx: u8,
    /// Right stick, vertical.
    pub ry: u8,
    /// Left trigger.
    pub lz: u8,
    /// Right trigger.
    pub rz: u8,
    /// The button mask, one bit per button.
    pub buttons: u8,
    /// The hat switch, a four-bit value.
    pub hat_switch: u8,
}

impl JoystickReport {
    /// Whether the hat switch fits its four bits. Only such a report can be
    /// told from its encoding.
    pub open spec fn representable(&self) -> bool {
        self.hat_switch <= JOYSTICK_HAT_MAX
    }

    /// The byte encoding: the six axes, the button mask, and a last byte with
    /// the hat switch in its low nibble and zero in its high nibble.
    pub open spec fn wire(&self) -> Seq<u8> {
        seq![
            self.lx,
            self.ly,
            self.rx,
            self.ry,
            self.lz,
            self.rz,
            self.buttons,
            self.hat_switch & 0x0F,
        ]
    }

    /// What `decode` makes of `bytes`.
    pub open spec fn parse(bytes: Seq<u8>) -> Result<JoystickReport, UsbHidError> {
        if bytes.len() == 8 {
            Ok(
                JoystickReport {
                    lx: bytes[0],
                    ly: bytes[1],
                    rx: bytes[2],
                    ry: bytes[3],
                    lz: bytes[4],
                    rz: bytes[5],
                    buttons: bytes[6],
                    hat_switch: bytes[7] & 0x0F,
                },
            )
        } else {
            Err(UsbHidError::MalformedReport)
        }
    }

    /// Encodes the report. Total: every report has an encoding; of a hat
    /// switch that does not fit four bits, the low four are sent.
    pub fn encode(&self) -> (bytes: [u8; 8])
        ensures
            bytes@ == self.wire(),
    {
        [
            self.lx,
            self.ly,
            self.rx,
            self.ry,
            self.lz,
            self.rz,
            self.buttons,
            self.hat_switch & 0x0F,
        ]
    }

    /// Decodes a report. Fails if and only if `bytes` is not eight bytes
    /// long; the bytes themselves are not examined. The hat switch is the low
    /// nibble of the last byte.
    pub fn decode(bytes: &[u8]) -> (report: Result<JoystickReport, UsbHidError>)
        ensures
            report == JoystickReport::parse(bytes@),
    {
        if bytes.len() != JOYSTICK_REPORT_SIZE {
            return Err(UsbHidError::MalformedReport);
        }
        Ok(
            JoystickReport {
                lx: bytes[0],
                ly: bytes[1],
                rx: bytes[2],
                ry: bytes[3],
                lz: bytes[4],
                rz: bytes[5],
                buttons: bytes[6],
                hat_switch: bytes[7] & 0x0F,
            },
        )
    }
}

impl Default for JoystickReport {
    /// The report with every axis at zero, no button down and the hat at zero.
    fn default() -> (report: JoystickReport)
        ensures
            report == (JoystickReport {
                lx: 0,
                ly: 0,
                rx: 0,
                ry: 0,
                lz: 0,
                rz: 0,
                buttons: 0,
                hat_switch: 0,
            }),
    {
        JoystickReport { lx: 0, ly: 0, rx: 0, ry: 0, lz: 0, rz: 0, buttons: 0, hat_switch: 0 }
    }
}

/// Decoding an encoded joystick report gives the report back, for every
/// report whose hat switch fits its four bits.
pub proof fn lemma_joystick_round_trip(report: JoystickReport)
    requires
        report.representable(),
    ensures
        JoystickReport::parse(report.wire()) == Ok::<JoystickReport, UsbHidError>(report),
{
    let hat = report.hat_switch;
    assert((hat & 0x0F) & 0x0F == hat) by (bit_vector)
        requires
            hat <= 0x0F,
    ;
}

/// Whatever was decoded is representable, and encodes to the bytes it came
/// from but for the high nibble of the last byte, which is cleared.
pub proof fn lemma_joystick_decoded_is_representable(bytes: Seq<u8>)
    requires
        bytes.len() == 8,
    ensures
        JoystickReport::parse(bytes)->Ok_0.representable(),
        JoystickReport::parse(bytes)->Ok_0.wire() == bytes.update(7, bytes[7] & 0x0F),
{
    let last = bytes[7];
    assert(last & 0x0F <= 0x0F && (last & 0x0F) & 0x0F == last & 0x0F) by (bit_vector);
    assert(JoystickReport::parse(bytes)->Ok_0.wire() =~= bytes.update(7, bytes[7] & 0x0F));
}

/// Poll interval of the joystick's IN endpoint, in milliseconds.
pub const JOYSTICK_POLL_INTERVAL: u64 = 10;

/// The joystick function, bound to its interface.
///
/// A report is written in two steps. `write_report` packs it and hands out
/// the packet; the caller offers the packet to the IN endpoint and says with
/// `complete_write` what the endpoint answered. Between the two steps the
/// report is in flight, and no second one is accepted.
#[derive(Clone, Copy, Debug, PartialEq, Eq)]
pub struct Joystick {
    /// The slot of the function: its interface and the report sent last.
    pub slot: FunctionSlot,
    /// The report whose write has been started and not yet completed.
    pub in_flight: Option<JoystickReport>,
}

impl Joystick {
    /// Starts the write of `report`. With no report in flight the report is
    /// packed, put in flight, and its packet returned for the one
    /// non-blocking transmission that follows. While a report is in flight
    /// nothing is attempted: the call would block, and nothing changes.
    pub fn write_report(&mut self, report: &JoystickReport) -> (packet: Result<
        [u8; 8],
        UsbHidError,
    >)
        ensures
            old(self).in_flight is Some ==> packet == Err::<[u8; 8], UsbHidError>(
                UsbHidError::WouldBlock,
            ) && *final(self) == *old(self),
            old(self).in_flight is None ==> (packet matches Ok(bytes) && bytes@ == report.wire())
                && *final(self) == (Joystick { in_flight: Some(*report), ..*old(self) }),
    {
        if self.in_flight.is_some() {
            return Err(UsbHidError::WouldBlock);
        }
        self.in_flight = Some(*report);
        Ok(report.encode())
    }

    /// Completes the write that `write_report` started, with what the
    /// endpoint answered at `now`, and returns the result of the write:
    /// success for `Sent`, `WouldBlock` for a full endpoint buffer,
    /// `TransportFault` for any other failure. Nothing is in flight
    /// afterwards. Only a report that was sent is remembered as the report
    /// sent last; with nothing in flight there is nothing to remember.
    pub fn complete_write(&mut self, outcome: WriteOutcome, now: u64) -> (done: Result<
        (),
        UsbHidError,
    >)
        ensures
            done == outcome.as_result(),
            final(self).in_flight is None,
            final(self).slot == (match old(self).in_flight {
                Some(report) => old(self).slot.after_write(Report::Joystick(report), outcome, now),
                None => old(self).slot,
            }),
    {
        match self.in_flight {
            Some(report) => {
                self.in_flight = None;
                self.slot.complete(&Report::Joystick(report), outcome, now)
            },
            None => outcome.into_result(),
        }
    }

    /// The interface that the joystick is bound to.
    pub fn interface(&self) -> (interface: u8)
        ensures
            interface == self.slot.interface,
    {
        self.slot.interface()
    }

    /// The bus was reset or reconfigured: forgets the report sent last and
    /// any report in flight.
    pub fn reset(&mut self)
        ensures
            final(self).in_flight is None,
            final(self).slot == (FunctionSlot { last_report: None, ..old(self).slot }),
    {
        self.in_flight = None;
        self.slot.reset();
    }

    /// The bookkeeping of one scheduler iteration. The joystick has none:
    /// nothing changes and nothing fails.
    pub fn tick(&mut self) -> (done: Result<(), UsbHidError>)
        ensures
            done == Ok::<(), UsbHidError>(()),
            *final(self) == *old(self),
    {
        self.slot.tick()
    }
}

/// The configuration from which a joystick is made at startup.
#[derive(Clone, Copy, Debug, PartialEq, Eq)]
pub struct JoystickConfig {
    /// The configuration of the joystick's interface.
    pub interface: InterfaceConfig,
}

impl JoystickConfig {
    /// The interface configuration of a joystick that was asked for none.
    pub open spec fn default_interface() -> InterfaceConfig {
        InterfaceConfig {
            report_descriptor: &JOYSTICK_DESCRIPTOR,
            description: "Joystick",
            protocol: InterfaceProtocol::NonBoot,
            idle_default: 0,
            in_interval: JOYSTICK_POLL_INTERVAL,
            out_interval: None,
        }
    }

    /// A joystick configuration with this interface configuration.
    #[must_use]
    pub fn new(interface: InterfaceConfig) -> (config: JoystickConfig)
        ensures
            config.interface == interface,
    {
        JoystickConfig { interface }
    }

    /// Binds the joystick to interface number `interface` at `now`: nothing
    /// is sent yet and nothing is in flight, the poll countdown runs with the
    /// interval of the IN endpoint, and the idle timer with the idle period
    /// of the configuration.
    pub fn allocate(self, interface: u8, now: u64) -> (joystick: Joystick)
        ensures
            joystick.in_flight is None,
            joystick.slot == FunctionSlot::created(
                interface,
                self.interface.in_interval,
                self.interface.idle_default,
                now,
            ),
    {
        Joystick {
            slot: FunctionSlot::new(
                interface,
                self.interface.in_interval,
                self.interface.idle_default,
                now,
            ),
            in_flight: None,
        }
    }
}

impl Default for JoystickConfig {
    /// The usual joystick: the joystick descriptor, the name "Joystick", no
    /// boot protocol, an IN endpoint polled every ten milliseconds, and no OUT
    /// endpoint.
    fn default() -> (config: JoystickConfig)
        ensures
            config.interface == JoystickConfig::default_interface(),
    {
        JoystickConfig::new(
            InterfaceConfig::new(&JOYSTICK_DESCRIPTOR).boot_device(
                InterfaceProtocol::NonBoot,
            ).description("Joystick").in_endpoint(JOYSTICK_POLL_INTERVAL).without_out_endpoint(),
        )
    }
}

} // verus!
