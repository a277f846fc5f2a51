//! Consumer control: the input report with its usage codes.

use crate::error::UsbHidError;
use vstd::prelude::*;

verus! {

/// Usage code of an empty slot.
pub const CONSUMER_UNASSIGNED: u16 = 0x00;

/// Usage code of "volume up".
pub const CONSUMER_VOLUME_INCREMENT: u16 = 0xE9;

/// Usage code of "volume down".
pub const CONSUMER_VOLUME_DECREMENT: u16 = 0xEA;

/// Number of usage codes that one report carries.
pub const CONSUMER_CODES: usize = 4;

/// Bytes of an encoded consumer report.
pub const CONSUMER_REPORT_SIZE: usize = 8;

/// The report descriptor of the consumer-control keypad: four usage codes of
/// sixteen bits each.
pub const MULTIPLE_CODE_REPORT_DESCRIPTOR: [u8; 23] = [
    0x05, 0x0c, 0x09, 0x01, 0xa1, 0x01, 0x75, 0x10, 0x95, 0x04, 0x15, 0x00, 0x26, 0x9c, 0x02, 0x19,
    0x00, 0x2a, 0x9c, 0x02, 0x81, 0x00, 0xc0,
];

/// The consumer controls that are active, at most four of them. An unused
/// slot holds `CONSUMER_UNASSIGNED`.
#[derive(Clone, Copy, Debug, PartialEq, Eq)]
pub struct ConsumerReport {
    /// The usage code of each slot.
    pub codes: [u16; 4],
}

/// The low byte of `code`.
pub open spec fn low_byte(code: u16) -> u8 {
    (code & 0xFF) as u8
}

/// The high byte of `code`.
pub open spec fn high_byte(code: u16) -> u8 {
    (code >> 8) as u8
}

/// The code whose low byte is `low` and whose high byte is `high`.
pub open spec fn code_of(low: u8, high: u8) -> u16 {
    (low as u16) | ((high as u16) << 8)
}

impl ConsumerReport {
    /// The byte encoding: the four codes in slot order, two bytes each, the
    /// low byte first.
    pub open spec fn wire(&self) -> Seq<u8> {
        seq![
            low_byte(self.codes[0]),
            high_byte(self.codes[0]),
            low_byte(self.codes[1]),
            high_byte(self.codes[1]),
            low_byte(self.codes[2]),
            high_byte(self.codes[2]),
            low_byte(self.codes[3]),
            high_byte(self.codes[3]),
        ]
    }

    /// What `decode` makes of `bytes`.
    pub open spec fn parse(bytes: Seq<u8>) -> Result<ConsumerReport, UsbHidError> {
        if bytes.len() == 8 {
            Ok(
                ConsumerReport {
                    codes: [
                        code_of(bytes[0], bytes[1]),
                        code_of(bytes[2], bytes[3]),
                        code_of(bytes[4], bytes[5]),
                        code_of(bytes[6], bytes[7]),
                    ],
                },
            )
        } else {
            Err(UsbHidError::MalformedReport)
        }
    }

    /// Whether the two reports hold the same codes, slot by slot.
    pub fn same(&self, other: &ConsumerReport) -> (equal: bool)
        ensures
            equal == (*self == *other),
    {
        let equal = self.codes[0] == other.codes[0] && self.codes[1] == other.codes[1]
            && self.codes[2] == other.codes[2] && self.codes[3] == other.codes[3];
        proof {
            if equal {
                assert(self.codes =~= other.codes);
            }
        }
        equal
    }

    /// Encodes the report. Total: every report has an encoding.
    pub fn encode(&self) -> (bytes: [u8; 8])
        ensures
            bytes@ == self.wire(),
    {
        let c0 = self.codes[0];
        let c1 = self.codes[1];
        let c2 = self.codes[2];
        let c3 = self.codes[3];
        [
            split_low(c0),
            split_high(c0),
            split_low(c1),
            split_high(c1),
            split_low(c2),
            split_high(c2),
            split_low(c3),
            split_high(c3),
        ]
    }

    /// Decodes a report. Fails if and only if `bytes` is not eight bytes
    /// long; the bytes themselves are not examined.
    pub fn decode(bytes: &[u8]) -> (report: Result<ConsumerReport, UsbHidError>)
        ensures
            report == ConsumerReport::parse(bytes@),
    {
        if bytes.len() != CONSUMER_REPORT_SIZE {
            return Err(UsbHidError::MalformedReport);
        }
        Ok(
            ConsumerReport {
                codes: [
                    join(bytes[0], bytes[1]),
                    join(bytes[2], bytes[3]),
                    join(bytes[4], bytes[5]),
                    join(bytes[6], bytes[7]),
                ],
            },
        )
    }
}

/// The low byte of a usage code.
fn split_low(code: u16) -> (byte: u8)
    ensures
        byte == low_byte(code),
{
    assert(code & 0xFF <= 0xFF) by (bit_vector);
    (code & 0xFF) as u8
}

/// The high byte of a usage code.
fn split_high(code: u16) -> (byte: u8)
    ensures
        byte == high_byte(code),
{
    assert(code >> 8 <= 0xFF) by (bit_vector);
    (code >> 8) as u8
}

/// The usage code made of its two bytes.
fn join(low: u8, high: u8) -> (code: u16)
    ensures
        code == code_of(low, high),
{
    (low as u16) | ((high as u16) << 8)
}

impl Default for ConsumerReport {
    /// The report with every slot unassigned.
    fn default() -> (report: ConsumerReport)
        ensures
            report.codes@ == seq![
                CONSUMER_UNASSIGNED,
                CONSUMER_UNASSIGNED,
                CONSUMER_UNASSIGNED,
                CONSUMER_UNASSIGNED,
            ],
    {
        ConsumerReport {
            codes: [
                CONSUMER_UNASSIGNED,
                CONSUMER_UNASSIGNED,
                CONSUMER_UNASSIGNED,
                CONSUMER_UNASSIGNED,
            ],
        }
    }
}

/// A code is made of its two bytes again.
pub proof fn lemma_code_round_trip(code: u16)
    ensures
        code_of(low_byte(code), high_byte(code)) == code,
{
    assert((((code & 0xFF) as u8) as u16) | ((((code >> 8) as u8) as u16) << 8) == code)
        by (bit_vector);
}

/// Decoding an encoded consumer report gives the report back.
pub proof fn lemma_consumer_round_trip(report: ConsumerReport)
    ensures
        ConsumerReport::parse(report.wire()) == Ok::<ConsumerReport, UsbHidError>(report),
{
    lemma_code_round_trip(report.codes[0]);
    lemma_code_round_trip(report.codes[1]);
    lemma_code_round_trip(report.codes[2]);
    lemma_code_round_trip(report.codes[3]);
    let back = ConsumerReport::parse(report.wire())->Ok_0;
    assert(back.codes =~= report.codes);
}

} // verus!
