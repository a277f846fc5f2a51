//! Boot keyboard: the input report with its key codes, and the LED output
//! report.

use crate::error::UsbHidError;
use vstd::prelude::*;

verus! {

/// Key code of an empty slot.
pub const KEY_NO_EVENT: u8 = 0x00;

/// Key code of the key "A".
pub const KEY_A: u8 = 0x04;

/// Key code of the key "B".
pub const KEY_B: u8 = 0x05;

/// Key code of the key "C".
pub const KEY_C: u8 = 0x06;

/// Number of key codes that one report carries.
pub const KEYBOARD_KEYS: usize = 3;

/// Bytes of an encoded keyboard report.
pub const KEYBOARD_REPORT_SIZE: usize = 8;

/// Bytes of an encoded LED report.
pub const KEYBOARD_LEDS_REPORT_SIZE: usize = 1;

/// The report descriptor of the boot keyboard: an input report of a modifier
/// byte, a reserved byte and six key codes, and an output report of five LED
/// bits.
pub const BOOT_KEYBOARD_REPORT_DESCRIPTOR: [u8; 63] = [
    0x05, 0x01, 0x09, 0x06, 0xa1, 0x01, 0x05, 0x07, 0x19, 0xe0, 0x29, 0xe7, 0x15, 0x00, 0x25, 0x01,
    0x75, 0x01, 0x95, 0x08, 0x81, 0x02, 0x95, 0x01, 0x75, 0x08, 0x81, 0x01, 0x95, 0x05, 0x75, 0x01,
    0x05, 0x08, 0x19, 0x01, 0x29, 0x05, 0x91, 0x02, 0x95, 0x01, 0x75, 0x03, 0x91, 0x01, 0x95, 0x06,
    0x75, 0x08, 0x15, 0x00, 0x25, 0x65, 0x05, 0x07, 0x19, 0x00, 0x29, 0x65, 0x81, 0x00, 0xc0,
];

/// The keys that are down, at most three of them, in slot order. An unused
/// slot holds `KEY_NO_EVENT`.
#[derive(Clone, Copy, Debug, PartialEq, Eq)]
pub struct KeyboardReport {
    /// The key code of each slot.
    pub keys: [u8; 3],
}

/// The code that slot `i` of a report built from `keys` holds: the sampled
/// code, unless an earlier slot has the same code already.
pub open spec fn collapsed_key(keys: Seq<u8>, i: int) -> u8 {
    if exists|j: int| 0 <= j < i && keys[j] == keys[i] {
        KEY_NO_EVENT
    } else {
        keys[i]
    }
}

impl KeyboardReport {
    /// The byte encoding: a modifier byte and a reserved byte, both zero, the
    /// three key codes, and three more empty key slots.
    pub open spec fn wire(&self) -> Seq<u8> {
        seq![0u8, 0u8, self.keys[0], self.keys[1], self.keys[2], 0u8, 0u8, 0u8]
    }

    /// What `decode` makes of `bytes`.
    pub open spec fn parse(bytes: Seq<u8>) -> Result<KeyboardReport, UsbHidError> {
        if bytes.len() == 8 {
            Ok(KeyboardReport { keys: [bytes[2], bytes[3], bytes[4]] })
        } else {
            Err(UsbHidError::MalformedReport)
        }
    }

    /// Whether the two reports hold the same key codes, slot by slot.
    pub fn same(&self, other: &KeyboardReport) -> (equal: bool)
        ensures
            equal == (*self == *other),
    {
        let equal = self.keys[0] == other.keys[0] && self.keys[1] == other.keys[1] && self.keys[2]
            == other.keys[2];
        proof {
            if equal {
                assert(self.keys =~= other.keys);
            }
        }
        equal
    }

    /// Builds the report of the sampled key codes. Each code keeps its slot; a
    /// code that an earlier slot holds already collapses to `KEY_NO_EVENT`, so
    /// no pressed key is reported twice.
    pub fn new(keys: [u8; 3]) -> (report: KeyboardReport)
        ensures
            forall|i: int| 0 <= i < 3 ==> report.keys[i] == #[trigger] collapsed_key(keys@, i),
    {
        let second = if keys[1] == keys[0] {
            KEY_NO_EVENT
        } else {
            keys[1]
        };
        let third = if keys[2] == keys[0] || keys[2] == keys[1] {
            KEY_NO_EVENT
        } else {
            keys[2]
        };
        KeyboardReport { keys: [keys[0], second, third] }
    }

    /// Encodes the report. Total: every report has an encoding.
    pub fn encode(&self) -> (bytes: [u8; 8])
        ensures
            bytes@ == self.wire(),
    {
        [0, 0, self.keys[0], self.keys[1], self.keys[2], 0, 0, 0]
    }

    /// Decodes a report. Fails if and only if `bytes` is not eight bytes
    /// long; the bytes themselves are not examined.
    pub fn decode(bytes: &[u8]) -> (report: Result<KeyboardReport, UsbHidError>)
        ensures
            report == KeyboardReport::parse(bytes@),
    {
        if bytes.len() != KEYBOARD_REPORT_SIZE {
            return Err(UsbHidError::MalformedReport);
        }
        Ok(KeyboardReport { keys: [bytes[2], bytes[3], bytes[4]] })
    }
}

impl Default for KeyboardReport {
    /// The report with no key down.
    fn default() -> (report: KeyboardReport)
        ensures
            report.keys@ == seq![KEY_NO_EVENT, KEY_NO_EVENT, KEY_NO_EVENT],
    {
        KeyboardReport { keys: [KEY_NO_EVENT, KEY_NO_EVENT, KEY_NO_EVENT] }
    }
}

/// Decoding an encoded keyboard report gives the report back.
pub proof fn lemma_keyboard_round_trip(report: KeyboardReport)
    ensures
        KeyboardReport::parse(report.wire()) == Ok::<KeyboardReport, UsbHidError>(report),
{
    let back = KeyboardReport::parse(report.wire())->Ok_0;
    assert(back.keys =~= report.keys);
}

/// A report built by `KeyboardReport::new` names no pressed key twice, and
/// names every sampled code.
pub proof fn lemma_keyboard_report_is_a_set(keys: Seq<u8>, report: KeyboardReport)
    requires
        keys.len() == 3,
        forall|i: int| 0 <= i < 3 ==> report.keys[i] == #[trigger] collapsed_key(keys, i),
    ensures
        forall|i: int, j: int|
            0 <= i < j < 3 && report.keys[i] != KEY_NO_EVENT ==> report.keys[i] != report.keys[j],
        forall|i: int|
            0 <= i < 3 ==> exists|j: int| 0 <= j <= i && report.keys[j] == #[trigger] keys[i],
{
    assert(report.keys[0] == collapsed_key(keys, 0));
    assert(report.keys[1] == collapsed_key(keys, 1));
    assert(report.keys[2] == collapsed_key(keys, 2));
}

/// The LED state that the host sends to the keyboard.
#[derive(Clone, Copy, Debug, PartialEq, Eq, Structural)]
pub struct KeyboardLedsReport {
    /// Num Lock, bit 0.
    pub num_lock: bool,
    /// Caps Lock, bit 1.
    pub caps_lock: bool,
    /// Scroll Lock, bit 2.
    pub scroll_lock: bool,
    /// Compose, bit 3.
    pub compose: bool,
    /// Kana, bit 4.
    pub kana: bool,
}

/// The bit `mask` if the LED is on, else zero.
pub open spec fn led_bit(on: bool, mask: u8) -> u8 {
    if on {
        mask
    } else {
        0u8
    }
}

impl KeyboardLedsReport {
    /// The byte encoding: one byte, one bit per LED, the upper three bits zero.
    pub open spec fn wire(&self) -> Seq<u8> {
        seq![
            led_bit(self.num_lock, 0x01) | led_bit(self.caps_lock, 0x02) | led_bit(
                self.scroll_lock,
                0x04,
            ) | led_bit(self.compose, 0x08) | led_bit(self.kana, 0x10),
        ]
    }

    /// The LED state that the byte `leds` stands for.
    pub open spec fn of_byte(leds: u8) -> KeyboardLedsReport {
        KeyboardLedsReport {
            num_lock: leds & 0x01 != 0,
            caps_lock: leds & 0x02 != 0,
            scroll_lock: leds & 0x04 != 0,
            compose: leds & 0x08 != 0,
            kana: leds & 0x10 != 0,
        }
    }

    /// What `decode` makes of `bytes`.
    pub open spec fn parse(bytes: Seq<u8>) -> Result<KeyboardLedsReport, UsbHidError> {
        if bytes.len() == 1 {
            Ok(KeyboardLedsReport::of_byte(bytes[0]))
        } else {
            Err(UsbHidError::MalformedReport)
        }
    }

    /// Reads the LED state out of the report byte.
    pub fn from_byte(leds: u8) -> (report: KeyboardLedsReport)
        ensures
            report == KeyboardLedsReport::of_byte(leds),
    {
        KeyboardLedsReport {
            num_lock: leds & 0x01 != 0,
            caps_lock: leds & 0x02 != 0,
            scroll_lock: leds & 0x04 != 0,
            compose: leds & 0x08 != 0,
            kana: leds & 0x10 != 0,
        }
    }

    /// Encodes the report. Total: every report has an encoding.
    pub fn encode(&self) -> (bytes: [u8; 1])
        ensures
            bytes@ == self.wire(),
    {
        let mut leds: u8 = 0;
        if self.num_lock {
            leds = leds | 0x01;
        }
        if self.caps_lock {
            leds = leds | 0x02;
        }
        if self.scroll_lock {
            leds = leds | 0x04;
        }
        if self.compose {
            leds = leds | 0x08;
        }
        if self.kana {
            leds = leds | 0x10;
        }
        proof {
            lemma_led_byte(
                self.num_lock,
                self.caps_lock,
                self.scroll_lock,
                self.compose,
                self.kana,
            );
        }
        [leds]
    }

    /// Decodes a report. Fails if and only if `bytes` is not one byte long.
    pub fn decode(bytes: &[u8]) -> (report: Result<KeyboardLedsReport, UsbHidError>)
        ensures
            report == KeyboardLedsReport::parse(bytes@),
    {
        if bytes.len() != KEYBOARD_LEDS_REPORT_SIZE {
            return Err(UsbHidError::MalformedReport);
        }
        Ok(KeyboardLedsReport::from_byte(bytes[0]))
    }
}

/// The byte that `encode` builds bit by bit is the one that `wire` names, and
/// each LED can be read back from its bit.
proof fn lemma_led_byte(num: bool, caps: bool, scroll: bool, compose: bool, kana: bool)
    ensures
        ({
            let b0: u8 = if num { 0u8 | 0x01 } else { 0u8 };
            let b1: u8 = if caps { b0 | 0x02 } else { b0 };
            let b2: u8 = if scroll { b1 | 0x04 } else { b1 };
            let b3: u8 = if compose { b2 | 0x08 } else { b2 };
            let b4: u8 = if kana { b3 | 0x10 } else { b3 };
            let wire = led_bit(num, 0x01) | led_bit(caps, 0x02) | led_bit(scroll, 0x04) | led_bit(
                compose,
                0x08,
            ) | led_bit(kana, 0x10);
            &&& b4 == wire
            &&& (wire & 0x01 != 0) == num
            &&& (wire & 0x02 != 0) == caps
            &&& (wire & 0x04 != 0) == scroll
            &&& (wire & 0x08 != 0) == compose
            &&& (wire & 0x10 != 0) == kana
            &&& wire & 0xE0 == 0
        }),
{
    let n: u8 = if num { 1 } else { 0 };
    let c: u8 = if caps { 1 } else { 0 };
    let s: u8 = if scroll { 1 } else { 0 };
    let o: u8 = if compose { 1 } else { 0 };
    let k: u8 = if kana { 1 } else { 0 };
    let b0: u8 = if num { 0u8 | 0x01 } else { 0u8 };
    let b1: u8 = if caps { b0 | 0x02 } else { b0 };
    let b2: u8 = if scroll { b1 | 0x04 } else { b1 };
    let b3: u8 = if compose { b2 | 0x08 } else { b2 };
    let b4: u8 = if kana { b3 | 0x10 } else { b3 };
    let wire = led_bit(num, 0x01) | led_bit(caps, 0x02) | led_bit(scroll, 0x04) | led_bit(
        compose,
        0x08,
    ) | led_bit(kana, 0x10);
    assert(b4 == wire && ((wire & 0x01 != 0) == (n == 1)) && ((wire & 0x02 != 0) == (c == 1))
        && ((wire & 0x04 != 0) == (s == 1)) && ((wire & 0x08 != 0) == (o == 1)) && ((wire & 0x10
        != 0) == (k == 1)) && wire & 0xE0 == 0) by (bit_vector)
        requires
            n <= 1,
            c <= 1,
            s <= 1,
            o <= 1,
            k <= 1,
            b0 == (if n == 1 { 0u8 | 0x01 } else { 0u8 }),
            b1 == (if c == 1 { b0 | 0x02 } else { b0 }),
            b2 == (if s == 1 { b1 | 0x04 } else { b1 }),
            b3 == (if o == 1 { b2 | 0x08 } else { b2 }),
            b4 == (if k == 1 { b3 | 0x10 } else { b3 }),
            wire == (if n == 1 { 0x01u8 } else { 0u8 }) | (if c == 1 { 0x02u8 } else { 0u8 }) | (if s
                == 1 { 0x04u8 } else { 0u8 }) | (if o == 1 { 0x08u8 } else { 0u8 }) | (if k == 1 {
                0x10u8
            } else {
                0u8
            }),
    ;
}

/// In an encoded LED report each LED stands in its own bit, and the upper
/// three bits are zero.
pub proof fn lemma_led_bits(report: KeyboardLedsReport)
    ensures
        (report.wire()[0] & 0x01 != 0) == report.num_lock,
        (report.wire()[0] & 0x02 != 0) == report.caps_lock,
        (report.wire()[0] & 0x04 != 0) == report.scroll_lock,
        (report.wire()[0] & 0x08 != 0) == report.compose,
        (report.wire()[0] & 0x10 != 0) == report.kana,
        report.wire()[0] & 0xE0 == 0,
{
    lemma_led_byte(
        report.num_lock,
        report.caps_lock,
        report.scroll_lock,
        report.compose,
        report.kana,
    );
}

/// Decoding an encoded LED report gives the report back.
pub proof fn lemma_keyboard_leds_round_trip(report: KeyboardLedsReport)
    ensures
        KeyboardLedsReport::parse(report.wire()) == Ok::<KeyboardLedsReport, UsbHidError>(report),
{
    lemma_led_byte(
        report.num_lock,
        report.caps_lock,
        report.scroll_lock,
        report.compose,
        report.kana,
    );
}

} // verus!
