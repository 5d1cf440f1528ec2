//! Per-slot status state machine.
//!
//! Each of the two physical slots advances independently through the
//! Release -> Touch -> Stream -> Release lifecycle, once per scan,
//! driven by the decoder's point list (not by the raw reported count).

use vstd::prelude::*;

use crate::TouchData;
use crate::TouchPoint;
use crate::TouchStatus;
use crate::decode::DecodedFrame;
use crate::decode::DecodedPoint;

verus! {

/// The status transition for one slot: a reported slot enters Touch
/// from Release and Stream from anything else; an unreported slot
/// returns to Release.
pub open spec fn spec_next_status(prev: TouchStatus, reported: bool) -> TouchStatus {
    if reported {
        if prev is Release {
            TouchStatus::Touch
        } else {
            TouchStatus::Stream
        }
    } else {
        TouchStatus::Release
    }
}

/// Whether the decoded list reports the given slot.
pub open spec fn spec_slot_reported(points: Seq<DecodedPoint>, slot: u8) -> bool {
    exists|i: int| 0 <= i < points.len() && (#[trigger] points[i]).slot_id == slot
}

/// The record that decides the slot's stored coordinates: the last one
/// in the list carrying the slot's id, so a later record overrides an
/// earlier one.
pub open spec fn spec_last_for_slot(points: Seq<DecodedPoint>, slot: u8) -> DecodedPoint
    recommends
        spec_slot_reported(points, slot),
    decreases points.len(),
{
    if points.len() == 0 {
        DecodedPoint { slot_id: slot, event_code: 0, x: 0, y: 0 }
    } else if points.last().slot_id == slot {
        points.last()
    } else {
        spec_last_for_slot(points.drop_last(), slot)
    }
}

/// The fate of one slot after a scan: status advanced by
/// [`spec_next_status`]; coordinates taken from the deciding record when
/// the slot is reported, and otherwise left at their previous stored
/// values (no reset to zero).
pub open spec fn spec_tracked_point(prev: TouchPoint, points: Seq<DecodedPoint>, slot: u8) -> TouchPoint {
    if spec_slot_reported(points, slot) {
        TouchPoint {
            status: spec_next_status(prev.status, true),
            x: spec_last_for_slot(points, slot).x,
            y: spec_last_for_slot(points, slot).y,
        }
    } else {
        TouchPoint { status: TouchStatus::Release, x: prev.x, y: prev.y }
    }
}

/// How one scan turns the previous report into the next one, given the
/// decoded point list and the device's claimed count: the count is
/// stored as claimed, and each slot advances by [`spec_tracked_point`].
pub open spec fn spec_report_updated(
    prev: TouchData,
    count: u8,
    points: Seq<DecodedPoint>,
    next: TouchData,
) -> bool {
    &&& next.touch_count == count
    &&& next.points@[0] == spec_tracked_point(prev.points@[0], points, 0)
    &&& next.points@[1] == spec_tracked_point(prev.points@[1], points, 1)
}

proof fn lemma_slot_reported_push(points: Seq<DecodedPoint>, p: DecodedPoint, slot: u8)
    ensures
        spec_slot_reported(points.push(p), slot) <==> (p.slot_id == slot || spec_slot_reported(
            points,
            slot,
        )),
{
    if p.slot_id == slot {
        assert(points.push(p)[points.len() as int].slot_id == slot);
    }
    if spec_slot_reported(points, slot) {
        let i = choose|i: int| 0 <= i < points.len() && (#[trigger] points[i]).slot_id == slot;
        assert(points.push(p)[i].slot_id == slot);
    }
    if spec_slot_reported(points.push(p), slot) && p.slot_id != slot {
        let i = choose|i: int|
            0 <= i < points.push(p).len() && (#[trigger] points.push(p)[i]).slot_id == slot;
        assert(0 <= i < points.len());
        assert(points[i].slot_id == slot);
    }
}

proof fn lemma_last_for_slot_push(points: Seq<DecodedPoint>, p: DecodedPoint, slot: u8)
    ensures
        spec_last_for_slot(points.push(p), slot) == if p.slot_id == slot {
            p
        } else {
            spec_last_for_slot(points, slot)
        },
{
    assert(points.push(p).last() == p);
    assert(points.push(p).drop_last() =~= points);
}

/// Advance one slot. `prev` is the slot's state before the scan; the
/// result is its state after, per [`spec_tracked_point`].
fn track_slot(prev: TouchPoint, frame: &DecodedFrame, slot: u8) -> (r: TouchPoint)
    ensures
        r == spec_tracked_point(prev, frame.points@, slot),
{
    let points = &frame.points;
    let ghost all = points@;
    let mut reported: bool = false;
    let mut x: u16 = 0;
    let mut y: u16 = 0;
    let mut i: usize = 0;
    while i < points.len()
        invariant
            0 <= i <= all.len(),
            points@ == all,
            reported == spec_slot_reported(all.take(i as int), slot),
            reported ==> x == spec_last_for_slot(all.take(i as int), slot).x,
            reported ==> y == spec_last_for_slot(all.take(i as int), slot).y,
        decreases all.len() - i,
    {
        let p = points[i];
        proof {
            assert(all.take(i + 1) =~= all.take(i as int).push(all[i as int]));
            lemma_slot_reported_push(all.take(i as int), p, slot);
            lemma_last_for_slot_push(all.take(i as int), p, slot);
        }
        if p.slot_id == slot {
            reported = true;
            x = p.x;
            y = p.y;
        }
        i += 1;
    }
    proof {
        assert(all.take(all.len() as int) =~= all);
    }
    if reported {
        let status = if matches!(prev.status, TouchStatus::Release) {
            TouchStatus::Touch
        } else {
            TouchStatus::Stream
        };
        TouchPoint { status, x, y }
    } else {
        TouchPoint { status: TouchStatus::Release, x: prev.x, y: prev.y }
    }
}

/// Apply one decoded frame to the persistent report, in place: store the
/// claimed count and advance both slots. One call per scan.
pub fn update_report(report: &mut TouchData, frame: &DecodedFrame)
    ensures
        spec_report_updated(*old(report), frame.reported_count, frame.points@, *final(report)),
        final(report).points@.len() == 2,
{
    let p0 = track_slot(report.points[0], frame, 0);
    let p1 = track_slot(report.points[1], frame, 1);
    report.touch_count = frame.reported_count;
    report.points = [p0, p1];
}

/// Law: a scan whose decoded list is empty (in particular, any scan
/// with a claimed count of zero) drives both slots to Release and
/// leaves every coordinate unchanged.
pub proof fn lemma_empty_frame_releases(prev: TouchData, count: u8, next: TouchData)
    requires
        spec_report_updated(prev, count, Seq::<DecodedPoint>::empty(), next),
    ensures
        next.points@[0].status is Release,
        next.points@[1].status is Release,
        next.points@[0].x == prev.points@[0].x,
        next.points@[0].y == prev.points@[0].y,
        next.points@[1].x == prev.points@[1].x,
        next.points@[1].y == prev.points@[1].y,
{
}

/// Law: a slot that was Released before the scan and is reported this
/// scan ends the scan in exactly Touch.
pub proof fn lemma_release_to_touch(
    prev: TouchData,
    count: u8,
    points: Seq<DecodedPoint>,
    next: TouchData,
    slot: u8,
)
    requires
        slot <= 1,
        spec_report_updated(prev, count, points, next),
        prev.points@[slot as int].status is Release,
        spec_slot_reported(points, slot),
    ensures
        next.points@[slot as int].status is Touch,
{
}

/// Law: a slot that was in Touch or Stream before the scan and is still
/// reported ends the scan in Stream.
pub proof fn lemma_held_to_stream(
    prev: TouchData,
    count: u8,
    points: Seq<DecodedPoint>,
    next: TouchData,
    slot: u8,
)
    requires
        slot <= 1,
        spec_report_updated(prev, count, points, next),
        prev.points@[slot as int].status is Touch || prev.points@[slot as int].status is Stream,
        spec_slot_reported(points, slot),
    ensures
        next.points@[slot as int].status is Stream,
{
}

/// Law: a slot that was in Touch or Stream before the scan and is not
/// reported this scan ends the scan in Release, with its coordinates
/// left at their previous stored values.
pub proof fn lemma_held_to_release(
    prev: TouchData,
    count: u8,
    points: Seq<DecodedPoint>,
    next: TouchData,
    slot: u8,
)
    requires
        slot <= 1,
        spec_report_updated(prev, count, points, next),
        prev.points@[slot as int].status is Touch || prev.points@[slot as int].status is Stream,
        !spec_slot_reported(points, slot),
    ensures
        next.points@[slot as int].status is Release,
        next.points@[slot as int].x == prev.points@[slot as int].x,
        next.points@[slot as int].y == prev.points@[slot as int].y,
{
}

} // verus!
