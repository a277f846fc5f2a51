//! The input sampler: from the sampled lines to each function's report.
//!
//! A snapshot says of each physical line whether it is asserted. The mapping
//! from lines to keys, buttons and movement is fixed.

use crate::device::consumer::{
    ConsumerReport, CONSUMER_UNASSIGNED, CONSUMER_VOLUME_DECREMENT, CONSUMER_VOLUME_INCREMENT,
};
use crate::device::keyboard::{
    collapsed_key, KeyboardReport, KEY_A, KEY_B, KEY_C, KEY_NO_EVENT,
};
use crate::device::mouse::MouseReport;
use vstd::prelude::*;

verus! {

/// Number of input lines in a snapshot.
pub const LINE_COUNT: usize = 12;

/// Line of the left mouse button.
pub const LINE_BUTTON_LEFT: usize = 0;

/// Line of the middle mouse button.
pub const LINE_BUTTON_MIDDLE: usize = 1;

/// Line of the right mouse button.
pub const LINE_BUTTON_RIGHT: usize = 2;

/// Line of "volume down".
pub const LINE_VOLUME_DOWN: usize = 3;

/// Line that moves the pointer up.
pub const LINE_MOVE_UP: usize = 4;

/// Line of "volume up".
pub const LINE_VOLUME_UP: usize = 5;

/// Line that moves the pointer left.
pub const LINE_MOVE_LEFT: usize = 6;

/// Line that moves the pointer down.
pub const LINE_MOVE_DOWN: usize = 7;

/// Line that moves the pointer right.
pub const LINE_MOVE_RIGHT: usize = 8;

/// Line of the key "A".
pub const LINE_KEY_A: usize = 9;

/// Line of the key "B".
pub const LINE_KEY_B: usize = 10;

/// Line of the key "C".
pub const LINE_KEY_C: usize = 11;

/// What one asserted direction line adds to an axis in one sampling pass.
pub const MOUSE_STEP: i8 = 10;

/// The lines as one sampling pass found them: `true` for a line that is
/// asserted. A snapshot is taken anew for every pass.
#[derive(Clone, Copy, Debug, PartialEq, Eq)]
pub struct InputSnapshot {
    /// The state of each line, by line index.
    pub lines: [bool; 12],
}

impl InputSnapshot {
    /// The snapshot with no line asserted.
    pub open spec fn none_asserted() -> InputSnapshot {
        InputSnapshot {
            lines: [false, false, false, false, false, false, false, false, false, false, false, false],
        }
    }

    /// The snapshot with no line asserted.
    pub fn released() -> (snapshot: InputSnapshot)
        ensures
            snapshot == InputSnapshot::none_asserted(),
            forall|line: int| 0 <= line < 12 ==> !snapshot.lines[line],
    {
        let snapshot = InputSnapshot { lines: [false; 12] };
        assert(snapshot.lines =~= InputSnapshot::none_asserted().lines);
        snapshot
    }

    /// This snapshot with `line` set to `asserted`. A line that the snapshot
    /// does not have leaves it as it is.
    pub fn with_line(self, line: usize, asserted: bool) -> (snapshot: InputSnapshot)
        ensures
            line < 12 ==> snapshot.lines@ == self.lines@.update(line as int, asserted),
            line >= 12 ==> snapshot == self,
    {
        if line < LINE_COUNT {
            let mut lines = self.lines;
            lines[line] = asserted;
            InputSnapshot { lines }
        } else {
            self
        }
    }

    /// Whether `line` is asserted; a line that the snapshot does not have is
    /// not.
    pub fn is_asserted(&self, line: usize) -> (asserted: bool)
        ensures
            asserted == (line < 12 && self.lines[line as int]),
    {
        line < LINE_COUNT && self.lines[line]
    }
}

/// The key code of a key line: `code` if the line is asserted.
pub open spec fn key_of(asserted: bool, code: u8) -> u8 {
    if asserted {
        code
    } else {
        KEY_NO_EVENT
    }
}

/// The usage code of a consumer line: `code` if the line is asserted.
pub open spec fn usage_of(asserted: bool, code: u16) -> u16 {
    if asserted {
        code
    } else {
        CONSUMER_UNASSIGNED
    }
}

/// The three key codes that the key lines give, in slot order.
pub open spec fn keyboard_keys(snapshot: InputSnapshot) -> Seq<u8> {
    seq![
        key_of(snapshot.lines[9], KEY_A),
        key_of(snapshot.lines[10], KEY_B),
        key_of(snapshot.lines[11], KEY_C),
    ]
}

/// The two usage codes that the volume lines give, in slot order.
pub open spec fn consumer_codes(snapshot: InputSnapshot) -> Seq<u16> {
    seq![
        usage_of(snapshot.lines[3], CONSUMER_VOLUME_DECREMENT),
        usage_of(snapshot.lines[5], CONSUMER_VOLUME_INCREMENT),
    ]
}

/// The keyboard report that a sampling pass over `snapshot` gives.
pub open spec fn keyboard_sample(snapshot: InputSnapshot) -> KeyboardReport {
    KeyboardReport {
        keys: [
            key_of(snapshot.lines[9], KEY_A),
            key_of(snapshot.lines[10], KEY_B),
            key_of(snapshot.lines[11], KEY_C),
        ],
    }
}

/// The consumer report that a sampling pass over `snapshot` gives: the two
/// sampled codes, then two unassigned slots.
pub open spec fn consumer_sample(snapshot: InputSnapshot) -> ConsumerReport {
    ConsumerReport {
        codes: [
            usage_of(snapshot.lines[3], CONSUMER_VOLUME_DECREMENT),
            usage_of(snapshot.lines[5], CONSUMER_VOLUME_INCREMENT),
            CONSUMER_UNASSIGNED,
            CONSUMER_UNASSIGNED,
        ],
    }
}

/// `value`, held at the bounds of a signed byte.
pub open spec fn saturated(value: int) -> int {
    if value > 127 {
        127
    } else if value < -128 {
        -128
    } else {
        value
    }
}

/// An axis after one sampling pass: ten less if the line towards the negative
/// end is asserted, then ten more if the line towards the positive end is,
/// each step held at the bounds of a signed byte.
pub open spec fn axis_after(axis: int, negative: bool, positive: bool) -> int {
    let lowered = if negative {
        saturated(axis - 10)
    } else {
        axis
    };
    if positive {
        saturated(lowered + 10)
    } else {
        lowered
    }
}

/// The button mask after one sampling pass: bit 0 is the left button, bit 2
/// the middle one and bit 1 the right one, each set when its line is asserted
/// and clear when it is not; the other five bits are kept.
pub open spec fn buttons_after(buttons: u8, left: bool, middle: bool, right: bool) -> u8 {
    (buttons & 0xF8) | (if left {
        0x01u8
    } else {
        0u8
    }) | (if middle {
        0x04u8
    } else {
        0u8
    }) | (if right {
        0x02u8
    } else {
        0u8
    })
}

/// The mouse report after one sampling pass over `snapshot`.
pub open spec fn mouse_after(report: MouseReport, snapshot: InputSnapshot) -> MouseReport {
    MouseReport {
        buttons: buttons_after(
            report.buttons,
            snapshot.lines[0],
            snapshot.lines[1],
            snapshot.lines[2],
        ),
        x: axis_after(report.x as int, snapshot.lines[6], snapshot.lines[8]) as i8,
        y: axis_after(report.y as int, snapshot.lines[4], snapshot.lines[7]) as i8,
    }
}

/// The mouse report after one sampling pass over each of `snapshots` in turn.
pub open spec fn mouse_after_all(report: MouseReport, snapshots: Seq<InputSnapshot>) -> MouseReport
    decreases snapshots.len(),
{
    if snapshots.len() == 0 {
        report
    } else {
        mouse_after(mouse_after_all(report, snapshots.drop_last()), snapshots.last())
    }
}

/// Samples the key lines: line 9 is "A", line 10 is "B", line 11 is "C". A
/// line that is asserted gives its key, one that is not gives "no event".
pub fn get_keyboard_keys(snapshot: &InputSnapshot) -> (keys: [u8; 3])
    ensures
        keys@ == keyboard_keys(*snapshot),
{
    let keys: [u8; 3] = [
        if snapshot.lines[LINE_KEY_A] {
            KEY_A
        } else {
            KEY_NO_EVENT
        },
        if snapshot.lines[LINE_KEY_B] {
            KEY_B
        } else {
            KEY_NO_EVENT
        },
        if snapshot.lines[LINE_KEY_C] {
            KEY_C
        } else {
            KEY_NO_EVENT
        },
    ];
    assert(keys@ =~= keyboard_keys(*snapshot));
    keys
}

/// Samples the volume lines: line 3 is "volume down", line 5 is "volume up".
pub fn get_consumer_codes(snapshot: &InputSnapshot) -> (codes: [u16; 2])
    ensures
        codes@ == consumer_codes(*snapshot),
{
    let codes: [u16; 2] = [
        if snapshot.lines[LINE_VOLUME_DOWN] {
            CONSUMER_VOLUME_DECREMENT
        } else {
            CONSUMER_UNASSIGNED
        },
        if snapshot.lines[LINE_VOLUME_UP] {
            CONSUMER_VOLUME_INCREMENT
        } else {
            CONSUMER_UNASSIGNED
        },
    ];
    assert(codes@ =~= consumer_codes(*snapshot));
    codes
}

/// The keyboard report of a snapshot: the sampled key codes, each in its slot.
/// The three keys differ, so none of them collapses.
pub fn sample_keyboard(snapshot: &InputSnapshot) -> (report: KeyboardReport)
    ensures
        report == keyboard_sample(*snapshot),
        report.keys@ == keyboard_keys(*snapshot),
{
    let keys = get_keyboard_keys(snapshot);
    let report = KeyboardReport::new(keys);
    proof {
        assert(report.keys[0] == collapsed_key(keys@, 0));
        assert(report.keys[1] == collapsed_key(keys@, 1));
        assert(report.keys[2] == collapsed_key(keys@, 2));
        assert(report.keys@ =~= keyboard_keys(*snapshot));
        assert(report.keys =~= keyboard_sample(*snapshot).keys);
    }
    report
}

/// The consumer report of a snapshot: the two sampled usage codes in the
/// first two slots, the other two slots unassigned.
pub fn sample_consumer(snapshot: &InputSnapshot) -> (report: ConsumerReport)
    ensures
        report == consumer_sample(*snapshot),
        report.codes@ == consumer_codes(*snapshot) + seq![CONSUMER_UNASSIGNED, CONSUMER_UNASSIGNED],
{
    let codes = get_consumer_codes(snapshot);
    let report = ConsumerReport {
        codes: [codes[0], codes[1], CONSUMER_UNASSIGNED, CONSUMER_UNASSIGNED],
    };
    assert(report.codes@ =~= consumer_codes(*snapshot) + seq![
        CONSUMER_UNASSIGNED,
        CONSUMER_UNASSIGNED,
    ]);
    assert(report.codes =~= consumer_sample(*snapshot).codes);
    report
}

/// `axis + delta`, held at the bounds of a signed byte.
pub fn saturating_step(axis: i8, delta: i8) -> (moved: i8)
    ensures
        moved == saturated(axis + delta),
{
    match axis.checked_add(delta) {
        Some(sum) => sum,
        None => if delta < 0 {
            i8::MIN
        } else {
            i8::MAX
        },
    }
}

/// Folds one sampling pass into the mouse report. The buttons are levels:
/// line 0 is the left button, line 1 the middle one, line 2 the right one, and
/// each bit follows its line. The axes add up: line 4 moves up, line 6 left,
/// line 7 down and line 8 right, ten units per pass, held at the bounds of a
/// signed byte.
pub fn update_mouse_report(report: MouseReport, snapshot: &InputSnapshot) -> (updated: MouseReport)
    ensures
        updated == mouse_after(report, *snapshot),
{
    let mut updated = report;
    if snapshot.lines[LINE_BUTTON_LEFT] {
        updated.buttons = updated.buttons | 0x01;
    } else {
        updated.buttons = updated.buttons & 0xFE;
    }
    if snapshot.lines[LINE_BUTTON_MIDDLE] {
        updated.buttons = updated.buttons | 0x04;
    } else {
        updated.buttons = updated.buttons & 0xFB;
    }
    if snapshot.lines[LINE_BUTTON_RIGHT] {
        updated.buttons = updated.buttons | 0x02;
    } else {
        updated.buttons = updated.buttons & 0xFD;
    }
    if snapshot.lines[LINE_MOVE_UP] {
        updated.y = saturating_step(updated.y, -MOUSE_STEP);
    }
    if snapshot.lines[LINE_MOVE_LEFT] {
        updated.x = saturating_step(updated.x, -MOUSE_STEP);
    }
    if snapshot.lines[LINE_MOVE_DOWN] {
        updated.y = saturating_step(updated.y, MOUSE_STEP);
    }
    if snapshot.lines[LINE_MOVE_RIGHT] {
        updated.x = saturating_step(updated.x, MOUSE_STEP);
    }
    proof {
        lemma_buttons_built(
            report.buttons,
            snapshot.lines[0],
            snapshot.lines[1],
            snapshot.lines[2],
        );
    }
    updated
}

/// Setting or clearing the three button bits one after the other gives the
/// mask that `buttons_after` names.
proof fn lemma_buttons_built(buttons: u8, left: bool, middle: bool, right: bool)
    ensures
        ({
            let b0: u8 = if left { buttons | 0x01 } else { buttons & 0xFE };
            let b1: u8 = if middle { b0 | 0x04 } else { b0 & 0xFB };
            let b2: u8 = if right { b1 | 0x02 } else { b1 & 0xFD };
            b2 == buttons_after(buttons, left, middle, right)
        }),
{
    let l: u8 = if left { 0x01 } else { 0 };
    let m: u8 = if middle { 0x04 } else { 0 };
    let r: u8 = if right { 0x02 } else { 0 };
    let b0: u8 = if left { buttons | 0x01 } else { buttons & 0xFE };
    let b1: u8 = if middle { b0 | 0x04 } else { b0 & 0xFB };
    let b2: u8 = if right { b1 | 0x02 } else { b1 & 0xFD };
    let mask: u8 = (buttons & 0xF8) | l | m | r;
    assert(b2 == mask) by (bit_vector)
        requires
            l == 0x01 || l == 0,
            m == 0x04 || m == 0,
            r == 0x02 || r == 0,
            b0 == (if l == 0x01 { buttons | 0x01 } else { buttons & 0xFE }),
            b1 == (if m == 0x04 { b0 | 0x04 } else { b0 & 0xFB }),
            b2 == (if r == 0x02 { b1 | 0x02 } else { b1 & 0xFD }),
            mask == (buttons & 0xF8) | l | m | r,
    ;
}

/// The buttons are levels: after a sampling pass each button bit says
/// whether its line is asserted, whatever the mask held before, and nothing
/// above bit 2 has changed.
pub proof fn lemma_buttons_follow_lines(buttons: u8, left: bool, middle: bool, right: bool)
    ensures
        (buttons_after(buttons, left, middle, right) & 0x01 != 0) == left,
        (buttons_after(buttons, left, middle, right) & 0x04 != 0) == middle,
        (buttons_after(buttons, left, middle, right) & 0x02 != 0) == right,
        buttons_after(buttons, left, middle, right) & 0xF8 == buttons & 0xF8,
{
    let l: u8 = if left { 0x01 } else { 0 };
    let m: u8 = if middle { 0x04 } else { 0 };
    let r: u8 = if right { 0x02 } else { 0 };
    let mask: u8 = (buttons & 0xF8) | l | m | r;
    assert(((mask & 0x01 != 0) == (l == 0x01)) && ((mask & 0x04 != 0) == (m == 0x04)) && ((mask
        & 0x02 != 0) == (r == 0x02)) && mask & 0xF8 == buttons & 0xF8) by (bit_vector)
        requires
            l == 0x01 || l == 0,
            m == 0x04 || m == 0,
            r == 0x02 || r == 0,
            mask == (buttons & 0xF8) | l | m | r,
    ;
}

/// One sampling pass keeps an axis within the range of a signed byte.
pub proof fn lemma_axis_stays_in_range(axis: int, negative: bool, positive: bool)
    requires
        -128 <= axis <= 127,
    ensures
        -128 <= axis_after(axis, negative, positive) <= 127,
{
}

/// However many sampling passes are folded into a mouse report before it is
/// sent, and whichever direction lines they find asserted, both axes stay
/// within the range of a signed byte: each is the value that the passes add up
/// to, held at the bounds.
pub proof fn lemma_mouse_deltas_saturate(report: MouseReport, snapshots: Seq<InputSnapshot>)
    ensures
        -128 <= mouse_after_all(report, snapshots).x <= 127,
        -128 <= mouse_after_all(report, snapshots).y <= 127,
        snapshots.len() > 0 ==> mouse_after_all(report, snapshots).x == axis_after(
            mouse_after_all(report, snapshots.drop_last()).x as int,
            snapshots.last().lines[6],
            snapshots.last().lines[8],
        ) && mouse_after_all(report, snapshots).y == axis_after(
            mouse_after_all(report, snapshots.drop_last()).y as int,
            snapshots.last().lines[4],
            snapshots.last().lines[7],
        ),
    decreases snapshots.len(),
{
    if snapshots.len() > 0 {
        let before = mouse_after_all(report, snapshots.drop_last());
        let last = snapshots.last();
        lemma_axis_stays_in_range(before.x as int, last.lines[6], last.lines[8]);
        lemma_axis_stays_in_range(before.y as int, last.lines[4], last.lines[7]);
    }
}

} // verus!
