//! Driver core for the FT6336U capacitive touch controller.
//!
//! The controller sits on a register-addressed serial bus. Each polling
//! cycle the driver reads one contiguous block of registers, decodes it
//! into up to two touch points, and advances a per-slot
//! Touch/Stream/Release lifecycle that stays stable across repeated
//! polls. The raw bus transactions are supplied by the caller through
//! the [`BusTransport`] trait; everything above that boundary is
//! verified.

use vstd::prelude::*;

mod decode;
mod driver;
mod interface;
mod registers;
mod tracker;

pub use decode::DecodedFrame;
pub use decode::DecodedPoint;
pub use decode::TOUCH_BLOCK_LEN;
pub use decode::decode_frame;
pub use decode::lemma_excluded_record_no_effect;
pub use decode::spec_decoded_points;
pub use decode::spec_num_records;
pub use decode::spec_record;
pub use decode::spec_record_base;
pub use decode::spec_record_included;
pub use decode::spec_record_slot_id;
pub use decode::spec_reported_count;
pub use driver::Ft6336u;
pub use driver::lemma_zero_count_scan_releases;
pub use driver::spec_point_reg;
pub use driver::spec_scan_result;
pub use interface::BusTransaction;
pub use interface::BusTransport;
pub use interface::CurrentFt6336uDriverInterface;
pub use interface::Ft6336uInterface;
pub use interface::MAX_WRITE_PAYLOAD;
pub use interface::spec_reg_read;
pub use interface::spec_reg_rmw;
pub use interface::spec_reg_write;
pub use registers::CtrlMode;
pub use registers::REG_ACTIVE_MODE_RATE;
pub use registers::REG_CHIP_ID;
pub use registers::REG_CIPHER_LOW;
pub use registers::REG_CIPHER_MID;
pub use registers::REG_CTRL;
pub use registers::REG_DEVICE_MODE;
pub use registers::REG_DISTANCE_LEFT_RIGHT;
pub use registers::REG_DISTANCE_UP_DOWN;
pub use registers::REG_DISTANCE_ZOOM;
pub use registers::REG_FACE_DEC_MODE;
pub use registers::REG_FILTER_COEFFICIENT;
pub use registers::REG_FIRMWARE_ID;
pub use registers::REG_FOCALTECH_ID;
pub use registers::REG_FREQ_HOPPING_EN;
pub use registers::REG_GESTURE_ID;
pub use registers::REG_G_MODE;
pub use registers::REG_LIBRARY_VERSION_H;
pub use registers::REG_MONITOR_MODE_RATE;
pub use registers::REG_OFFSET_LEFT_RIGHT;
pub use registers::REG_OFFSET_UP_DOWN;
pub use registers::REG_P1_XH;
pub use registers::REG_POWER_MODE;
pub use registers::REG_RADIAN_VALUE;
pub use registers::REG_RELEASE_CODE_ID;
pub use registers::REG_STATE;
pub use registers::REG_TD_STATUS;
pub use registers::REG_THRESHOLD;
pub use registers::REG_TIME_ENTER_MONITOR;
pub use registers::DeviceMode;
pub use registers::GestureId;
pub use registers::GestureMode;
pub use registers::PowerModeEnum;
pub use registers::TouchEvent;
pub use registers::ctrl_mode_bits;
pub use registers::ctrl_mode_from_bits;
pub use registers::device_mode_bits;
pub use registers::device_mode_from_bits;
pub use registers::gesture_from_bits;
pub use registers::gesture_mode_bits;
pub use registers::gesture_mode_from_bits;
pub use registers::power_mode_bits;
pub use registers::power_mode_from_bits;
pub use registers::spec_ctrl_mode_bits;
pub use registers::spec_ctrl_mode_from_bits;
pub use registers::spec_device_mode_bits;
pub use registers::spec_device_mode_from_bits;
pub use registers::spec_gesture_from_bits;
pub use registers::spec_gesture_mode_bits;
pub use registers::spec_gesture_mode_from_bits;
pub use registers::spec_power_mode_bits;
pub use registers::spec_power_mode_from_bits;
pub use registers::spec_touch_event_from_bits;
pub use registers::touch_event_from_bits;
pub use tracker::lemma_empty_frame_releases;
pub use tracker::lemma_held_to_release;
pub use tracker::lemma_held_to_stream;
pub use tracker::lemma_release_to_touch;
pub use tracker::spec_last_for_slot;
pub use tracker::spec_next_status;
pub use tracker::spec_report_updated;
pub use tracker::spec_slot_reported;
pub use tracker::spec_tracked_point;
pub use tracker::update_report;

verus! {

/// Fixed 7-bit bus address of the FT6336U device.
pub const FT6336U_I2C_ADDRESS: u8 = 0x38;

/// Errors surfaced by the driver.
#[derive(Debug, Clone, Copy, PartialEq, Eq)]
pub enum Ft6336uError<I2cErr> {
    /// The transport reported a fault; carries the transport's native error.
    I2c(I2cErr),
    /// A write payload did not fit the fixed scratch buffer; the bus was
    /// not touched.
    PayloadTooLarge,
}

/// Lifecycle status of one touch slot.
#[derive(Debug, Clone, Copy, PartialEq, Eq, Structural)]
pub enum TouchStatus {
    /// The slot is reported this cycle and was absent the cycle before.
    Touch,
    /// The slot has been reported for two or more consecutive cycles.
    Stream,
    /// The slot is not currently reported (initial and terminal state).
    Release,
}

/// One touch slot: its lifecycle status and the last stored coordinates.
///
/// When `status` is [`TouchStatus::Release`], `x` and `y` keep the last
/// value that was written while the slot was active; they are not reset.
#[derive(Debug, Clone, Copy, PartialEq, Eq, Structural)]
pub struct TouchPoint {
    /// Lifecycle status of the slot.
    pub status: TouchStatus,
    /// Horizontal coordinate, a 12-bit value.
    pub x: u16,
    /// Vertical coordinate, a 12-bit value.
    pub y: u16,
}

impl Default for TouchPoint {
    /// A released slot with zeroed coordinates.
    fn default() -> (r: Self)
        ensures
            r == (TouchPoint { status: TouchStatus::Release, x: 0, y: 0 }),
    {
        Self { status: TouchStatus::Release, x: 0, y: 0 }
    }
}

/// The persistent multi-touch report: the device's own touch count and
/// exactly two physical slots. This is the only long-lived mutable state
/// of the driver; it persists across scans so that status transitions
/// can be derived.
#[derive(Debug, Clone, Copy, PartialEq, Eq)]
pub struct TouchData {
    /// The count claimed by the device in the status register's low
    /// nibble, stored even when it exceeds the two physical slots.
    pub touch_count: u8,
    /// The two physical slots.
    pub points: [TouchPoint; 2],
}

impl Default for TouchData {
    /// No touches: count zero, both slots released.
    fn default() -> (r: Self)
        ensures
            r.touch_count == 0,
            r.points@.len() == 2,
            r.points@[0] == (TouchPoint { status: TouchStatus::Release, x: 0, y: 0 }),
            r.points@[1] == (TouchPoint { status: TouchStatus::Release, x: 0, y: 0 }),
    {
        Self { touch_count: 0, points: [TouchPoint::default(), TouchPoint::default()] }
    }
}

} // verus!
