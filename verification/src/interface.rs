//! What is fixed of an interface at setup: its descriptor, its boot protocol
//! and its timing.

use vstd::prelude::*;

verus! {

/// The boot protocol that an interface announces.
#[derive(Clone, Copy, Debug, PartialEq, Eq, Structural)]
pub enum InterfaceProtocol {
    /// No boot protocol.
    NonBoot,
    /// Boot keyboard.
    Keyboard,
    /// Boot mouse.
    Mouse,
}

/// The configuration of one HID interface. Times are in milliseconds.
#[derive(Clone, Copy, Debug, PartialEq, Eq)]
pub struct InterfaceConfig {
    /// The report descriptor that the host is given.
    pub report_descriptor: &'static [u8],
    /// The name of the interface, empty if it has none.
    pub description: &'static str,
    /// The boot protocol.
    pub protocol: InterfaceProtocol,
    /// The idle period at startup; zero switches idle resending off.
    pub idle_default: u64,
    /// The poll interval of the IN endpoint.
    pub in_interval: u64,
    /// The poll interval of the OUT endpoint, if the interface has one.
    pub out_interval: Option<u64>,
}

/// Poll interval of an IN endpoint that was given none.
pub const DEFAULT_IN_INTERVAL: u64 = 10;

/// Milliseconds per unit of the idle rate that host and device exchange.
pub const IDLE_RATE_UNIT: u64 = 4;

impl InterfaceProtocol {
    /// The subclass code and the protocol code that the interface descriptor
    /// holds for this boot protocol.
    pub open spec fn codes_of(self) -> (u8, u8) {
        match self {
            InterfaceProtocol::NonBoot => (0u8, 0u8),
            InterfaceProtocol::Keyboard => (1u8, 1u8),
            InterfaceProtocol::Mouse => (1u8, 2u8),
        }
    }

    /// The subclass code and the protocol code for the interface descriptor:
    /// subclass 1 for a boot device and 0 for any other, protocol 1 for the
    /// keyboard, 2 for the mouse and 0 for none.
    pub fn codes(self) -> (codes: (u8, u8))
        ensures
            codes == self.codes_of(),
    {
        match self {
            InterfaceProtocol::NonBoot => (0, 0),
            InterfaceProtocol::Keyboard => (1, 1),
            InterfaceProtocol::Mouse => (1, 2),
        }
    }
}

/// A poll interval in milliseconds as an endpoint descriptor holds it: in one
/// byte, so that a longer interval is held at 255.
pub fn endpoint_interval(millis: u64) -> (interval: u8)
    ensures
        interval == if millis > 255 { 255 } else { millis as int },
{
    if millis > 255 {
        255
    } else {
        millis as u8
    }
}

/// An idle period in milliseconds as the idle rate that the host reads: in
/// units of four milliseconds, rounded down, in one byte, so that a longer
/// period is held at 255 units.
pub fn idle_rate(millis: u64) -> (rate: u8)
    ensures
        rate == if millis / 4 > 255 { 255 } else { (millis / 4) as int },
{
    let units = millis / IDLE_RATE_UNIT;
    if units > 255 {
        255
    } else {
        units as u8
    }
}

/// The idle period in milliseconds that the idle rate `rate` stands for. A
/// rate of zero stands for no idle resending.
pub fn idle_period(rate: u8) -> (millis: u64)
    ensures
        millis == rate * 4,
{
    rate as u64 * IDLE_RATE_UNIT
}

impl InterfaceConfig {
    /// The configuration that `new` makes for `report_descriptor`.
    pub open spec fn initial(report_descriptor: &'static [u8]) -> InterfaceConfig {
        InterfaceConfig {
            report_descriptor,
            description: "",
            protocol: InterfaceProtocol::NonBoot,
            idle_default: 0,
            in_interval: DEFAULT_IN_INTERVAL,
            out_interval: None,
        }
    }

    /// Starts a configuration: no name, no boot protocol, idle resending off,
    /// an IN endpoint polled every ten milliseconds, no OUT endpoint.
    pub fn new(report_descriptor: &'static [u8]) -> (config: InterfaceConfig)
        ensures
            config == InterfaceConfig::initial(report_descriptor),
    {
        InterfaceConfig {
            report_descriptor,
            description: "",
            protocol: InterfaceProtocol::NonBoot,
            idle_default: 0,
            in_interval: DEFAULT_IN_INTERVAL,
            out_interval: None,
        }
    }

    /// Sets the boot protocol.
    pub fn boot_device(self, protocol: InterfaceProtocol) -> (config: InterfaceConfig)
        ensures
            config == (InterfaceConfig { protocol, ..self }),
    {
        InterfaceConfig { protocol, ..self }
    }

    /// Sets the name.
    pub fn description(self, description: &'static str) -> (config: InterfaceConfig)
        ensures
            config == (InterfaceConfig { description, ..self }),
    {
        InterfaceConfig { description, ..self }
    }

    /// Sets the idle period at startup. Zero switches idle resending off.
    pub fn idle_default(self, idle_default: u64) -> (config: InterfaceConfig)
        ensures
            config == (InterfaceConfig { idle_default, ..self }),
    {
        InterfaceConfig { idle_default, ..self }
    }

    /// Sets the poll interval of the IN endpoint.
    pub fn in_endpoint(self, in_interval: u64) -> (config: InterfaceConfig)
        ensures
            config == (InterfaceConfig { in_interval, ..self }),
    {
        InterfaceConfig { in_interval, ..self }
    }

    /// Gives the interface an OUT endpoint with this poll interval.
    pub fn with_out_endpoint(self, out_interval: u64) -> (config: InterfaceConfig)
        ensures
            config == (InterfaceConfig { out_interval: Some(out_interval), ..self }),
    {
        InterfaceConfig { out_interval: Some(out_interval), ..self }
    }

    /// Leaves the interface without an OUT endpoint.
    pub fn without_out_endpoint(self) -> (config: InterfaceConfig)
        ensures
            config == (InterfaceConfig { out_interval: None, ..self }),
    {
        InterfaceConfig { out_interval: None, ..self }
    }
}

} // verus!
