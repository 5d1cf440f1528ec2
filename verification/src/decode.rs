//! Pure decoding of one raw touch-register block.
//!
//! A block spans the touch-detection status byte plus two fixed 6-byte
//! point records. Decoding is deterministic and never fails: any byte
//! pattern yields a well-defined (possibly empty) point list.

use vstd::prelude::*;

verus! {

/// Length in bytes of the touch block: the status byte followed by two
/// 6-byte point records.
pub const TOUCH_BLOCK_LEN: usize = 13;

/// Byte offset of point record `i` within the block.
pub open spec fn spec_record_base(i: int) -> int {
    1 + 6 * i
}

/// One point record decoded from the block.
#[derive(Debug, Clone, Copy, PartialEq, Eq, Structural)]
pub struct DecodedPoint {
    /// The slot the device assigned to this record: the high nibble of
    /// the YId-high byte.
    pub slot_id: u8,
    /// Touch-down/move/up/no-event code: the top two bits of the
    /// XEvent-high byte. Exposed but not consumed by the tracker.
    pub event_code: u8,
    /// 12-bit big-endian horizontal coordinate.
    pub x: u16,
    /// 12-bit big-endian vertical coordinate.
    pub y: u16,
}

/// The transient result of decoding one block: the device's claimed
/// count and the accepted point records, in physical record order. It
/// carries no memory of prior scans.
#[derive(Debug, Clone, PartialEq, Eq)]
pub struct DecodedFrame {
    /// The count claimed by the device (low nibble of the status byte),
    /// before any clamping to the two physical slots.
    pub reported_count: u8,
    /// The decoded records whose slot id is 0 or 1, in record order.
    pub points: Vec<DecodedPoint>,
}

/// The count the device claims: the low nibble of the status byte.
pub open spec fn spec_reported_count(block: Seq<u8>) -> u8 {
    block[0] & 0x0F
}

/// How many records are decoded: `min(reported_count, 2)`. Record bytes
/// beyond the claimed count are not trusted, even if non-zero.
pub open spec fn spec_num_records(block: Seq<u8>) -> int {
    if spec_reported_count(block) == 0 {
        0
    } else if spec_reported_count(block) == 1 {
        1
    } else {
        2
    }
}

/// The slot id carried by record `i`: the high nibble of its YId-high byte.
pub open spec fn spec_record_slot_id(block: Seq<u8>, i: int) -> u8 {
    block[spec_record_base(i) + 2] >> 4
}

/// Record `i` of the block, decoded field by field.
pub open spec fn spec_record(block: Seq<u8>, i: int) -> DecodedPoint {
    DecodedPoint {
        slot_id: spec_record_slot_id(block, i),
        event_code: block[spec_record_base(i)] >> 6,
        x: ((block[spec_record_base(i)] & 0x0F) as u16) << 8 | block[spec_record_base(i) + 1] as u16,
        y: ((block[spec_record_base(i) + 2] & 0x0F) as u16) << 8 | block[spec_record_base(i) + 3] as u16,
    }
}

/// Whether record `i` reaches the decoded list: it lies within the
/// claimed count and its slot id names one of the two physical slots.
pub open spec fn spec_record_included(block: Seq<u8>, i: int) -> bool {
    0 <= i < spec_num_records(block) && spec_record_slot_id(block, i) <= 1
}

/// The decoded point list: the included records in physical order
/// (record 0 before record 1). Records with an out-of-range slot id are
/// dropped entirely.
pub open spec fn spec_decoded_points(block: Seq<u8>) -> Seq<DecodedPoint> {
    if spec_record_included(block, 0) && spec_record_included(block, 1) {
        seq![spec_record(block, 0), spec_record(block, 1)]
    } else if spec_record_included(block, 0) {
        seq![spec_record(block, 0)]
    } else if spec_record_included(block, 1) {
        seq![spec_record(block, 1)]
    } else {
        Seq::empty()
    }
}

/// Decode record `idx` of the block.
fn decode_record(block: &Vec<u8>, idx: usize) -> (r: DecodedPoint)
    requires
        block@.len() == TOUCH_BLOCK_LEN,
        idx < 2,
    ensures
        r == spec_record(block@, idx as int),
{
    let base: usize = 1 + 6 * idx;
    let x_event_high = block[base];
    let x_event_low = block[base + 1];
    let y_id_high = block[base + 2];
    let y_id_low = block[base + 3];
    DecodedPoint {
        slot_id: y_id_high >> 4,
        event_code: x_event_high >> 6,
        x: ((x_event_high & 0x0F) as u16) << 8 | x_event_low as u16,
        y: ((y_id_high & 0x0F) as u16) << 8 | y_id_low as u16,
    }
}

/// Decode one raw touch block into a frame.
///
/// Pure: the result is a function of the input bytes alone, so identical
/// bytes always yield an identical frame. When the claimed count is
/// zero the record bytes are not trusted and the list is empty;
/// otherwise `min(count, 2)` records are decoded in physical order and
/// those whose slot id is not 0 or 1 are dropped.
pub fn decode_frame(block: &Vec<u8>) -> (r: DecodedFrame)
    requires
        block@.len() == TOUCH_BLOCK_LEN,
    ensures
        r.reported_count == spec_reported_count(block@),
        r.points@ == spec_decoded_points(block@),
        r.points@.len() <= 2,
        forall|j: int| 0 <= j < r.points@.len() ==> (#[trigger] r.points@[j]).slot_id <= 1,
{
    let count = block[0] & 0x0F;
    let records: usize = if count == 0 {
        0
    } else if count == 1 {
        1
    } else {
        2
    };
    let mut points: Vec<DecodedPoint> = Vec::new();
    if records >= 1 {
        let r0 = decode_record(block, 0);
        if r0.slot_id <= 1 {
            points.push(r0);
        }
    }
    if records >= 2 {
        let r1 = decode_record(block, 1);
        if r1.slot_id <= 1 {
            points.push(r1);
        }
    }
    proof {
        assert(points@ =~= spec_decoded_points(block@));
    }
    DecodedFrame { reported_count: count, points }
}

/// Law: a record whose slot id names no physical slot is excluded from
/// the decoded list entirely. For each physical slot, whether the slot
/// is present in the decoded list is decided only by records whose slot
/// id equals that slot, so an out-of-range record neither populates a
/// slot nor affects the other slot's fate.
pub proof fn lemma_excluded_record_no_effect(block: Seq<u8>, slot: u8)
    requires
        block.len() == TOUCH_BLOCK_LEN,
        slot <= 1,
    ensures
        (exists|j: int|
            0 <= j < spec_decoded_points(block).len() && (#[trigger] spec_decoded_points(
                block,
            )[j]).slot_id == slot) <==> (exists|i: int|
            0 <= i < spec_num_records(block) && spec_record_slot_id(block, i) == slot),
{
    let pts = spec_decoded_points(block);
    if exists|j: int| 0 <= j < pts.len() && (#[trigger] pts[j]).slot_id == slot {
        let j = choose|j: int| 0 <= j < pts.len() && (#[trigger] pts[j]).slot_id == slot;
        if spec_record_included(block, 0) && spec_record_included(block, 1) {
            if j == 0 {
                assert(spec_record_slot_id(block, 0) == slot);
            } else {
                assert(spec_record_slot_id(block, 1) == slot);
            }
        } else if spec_record_included(block, 0) {
            assert(spec_record_slot_id(block, 0) == slot);
        } else if spec_record_included(block, 1) {
            assert(spec_record_slot_id(block, 1) == slot);
        }
    }
    if exists|i: int| 0 <= i < spec_num_records(block) && spec_record_slot_id(block, i) == slot {
        let i = choose|i: int|
            0 <= i < spec_num_records(block) && spec_record_slot_id(block, i) == slot;
        assert(spec_record_included(block, i));
        if i == 0 {
            if spec_record_included(block, 1) {
                assert(pts[0].slot_id == slot || pts[1].slot_id == slot);
            } else {
                assert(pts[0].slot_id == slot);
            }
        } else {
            if spec_record_included(block, 0) {
                assert(pts[1].slot_id == slot);
            } else {
                assert(pts[0].slot_id == slot);
            }
        }
    }
}

} // verus!
