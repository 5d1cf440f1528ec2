//! The driver: one batched register read per scan, decode, tracker
//! update, and the configuration register pass-throughs.
//!
//! A scan reads the whole touch block in a single write-then-read
//! transaction. Reading the two point records in separate transactions
//! could tear a frame (point 0 from one instant, point 1 from another)
//! if the device updated its registers in between; the batched read is
//! the correctness mechanism, not an optimization. Every contract below
//! therefore states, over the interface's transaction history, exactly
//! which register was read or written and how the result relates to the
//! bytes on the wire.

use vstd::prelude::*;

use crate::Ft6336uError;
use crate::TouchData;
use crate::TouchPoint;
use crate::TouchStatus;
use crate::decode::DecodedPoint;
use crate::decode::TOUCH_BLOCK_LEN;
use crate::decode::decode_frame;
use crate::decode::spec_decoded_points;
use crate::decode::spec_reported_count;
use crate::interface::BusTransaction;
use crate::interface::BusTransport;
use crate::interface::CurrentFt6336uDriverInterface;
use crate::interface::Ft6336uInterface;
use crate::interface::spec_reg_read;
use crate::interface::spec_reg_rmw;
use crate::interface::spec_reg_write;
use crate::registers::CtrlMode;
use crate::registers::DeviceMode;
use crate::registers::GestureId;
use crate::registers::GestureMode;
use crate::registers::PowerModeEnum;
use crate::registers::REG_ACTIVE_MODE_RATE;
use crate::registers::REG_CHIP_ID;
use crate::registers::REG_CIPHER_LOW;
use crate::registers::REG_CIPHER_MID;
use crate::registers::REG_CTRL;
use crate::registers::REG_DEVICE_MODE;
use crate::registers::REG_DISTANCE_LEFT_RIGHT;
use crate::registers::REG_DISTANCE_UP_DOWN;
use crate::registers::REG_DISTANCE_ZOOM;
use crate::registers::REG_FACE_DEC_MODE;
use crate::registers::REG_FILTER_COEFFICIENT;
use crate::registers::REG_FIRMWARE_ID;
use crate::registers::REG_FOCALTECH_ID;
use crate::registers::REG_FREQ_HOPPING_EN;
use crate::registers::REG_GESTURE_ID;
use crate::registers::REG_G_MODE;
use crate::registers::REG_LIBRARY_VERSION_H;
use crate::registers::REG_MONITOR_MODE_RATE;
use crate::registers::REG_OFFSET_LEFT_RIGHT;
use crate::registers::REG_OFFSET_UP_DOWN;
use crate::registers::REG_P1_XH;
use crate::registers::REG_POWER_MODE;
use crate::registers::REG_RADIAN_VALUE;
use crate::registers::REG_RELEASE_CODE_ID;
use crate::registers::REG_STATE;
use crate::registers::REG_TD_STATUS;
use crate::registers::REG_THRESHOLD;
use crate::registers::REG_TIME_ENTER_MONITOR;
use crate::registers::TouchEvent;
use crate::registers::ctrl_mode_bits;
use crate::registers::ctrl_mode_from_bits;
use crate::registers::device_mode_bits;
use crate::registers::device_mode_from_bits;
use crate::registers::gesture_from_bits;
use crate::registers::gesture_mode_bits;
use crate::registers::gesture_mode_from_bits;
use crate::registers::power_mode_bits;
use crate::registers::power_mode_from_bits;
use crate::registers::spec_ctrl_mode_bits;
use crate::registers::spec_ctrl_mode_from_bits;
use crate::registers::spec_device_mode_bits;
use crate::registers::spec_device_mode_from_bits;
use crate::registers::spec_gesture_from_bits;
use crate::registers::spec_gesture_mode_bits;
use crate::registers::spec_gesture_mode_from_bits;
use crate::registers::spec_power_mode_bits;
use crate::registers::spec_power_mode_from_bits;
use crate::registers::spec_touch_event_from_bits;
use crate::registers::touch_event_from_bits;
use crate::tracker::spec_report_updated;
use crate::tracker::update_report;

verus! {

/// What one successful scan does to the report: the decoded frame of
/// the block read from the device is applied to the previous report.
pub open spec fn spec_scan_result(prev: TouchData, block: Seq<u8>, next: TouchData) -> bool {
    spec_report_updated(prev, spec_reported_count(block), spec_decoded_points(block), next)
}

/// Register address of byte `offset` within 6-byte point record
/// `point`: the records follow each other directly after the status
/// register.
pub open spec fn spec_point_reg(point: int, offset: int) -> u8 {
    (REG_P1_XH + 6 * point + offset) as u8
}

/// Law: any scan whose status byte claims zero touches ends with both
/// slots in Release and every coordinate unchanged, whatever the record
/// bytes hold — stale record bytes are never trusted.
pub proof fn lemma_zero_count_scan_releases(prev: TouchData, block: Seq<u8>, next: TouchData)
    requires
        block.len() == TOUCH_BLOCK_LEN,
        spec_reported_count(block) == 0,
        spec_scan_result(prev, block, next),
    ensures
        next.touch_count == 0,
        next.points@[0].status is Release,
        next.points@[1].status is Release,
        next.points@[0].x == prev.points@[0].x,
        next.points@[0].y == prev.points@[0].y,
        next.points@[1].x == prev.points@[1].x,
        next.points@[1].y == prev.points@[1].y,
{
    assert(spec_decoded_points(block) =~= Seq::<DecodedPoint>::empty());
}

/// The FT6336U driver. It exclusively owns its register interface and
/// its persistent touch report; the report is mutated only inside
/// [`Ft6336u::scan`].
pub struct Ft6336u<I2CImpl> {
    /// The register-level interface the driver talks through.
    pub ll: I2CImpl,
    touch_data: TouchData,
}

impl<I2CImpl> View for Ft6336u<I2CImpl> {
    type V = TouchData;

    /// The driver's observable state: its persistent touch report.
    closed spec fn view(&self) -> TouchData {
        self.touch_data
    }
}

impl<I2CBus: BusTransport> Ft6336u<Ft6336uInterface<I2CBus>> {
    /// Build a driver over a raw bus transport, with an all-released
    /// report.
    pub fn new(i2c: I2CBus) -> (r: Self)
        ensures
            r@.touch_count == 0,
            r@.points@[0] == (TouchPoint { status: TouchStatus::Release, x: 0, y: 0 }),
            r@.points@[1] == (TouchPoint { status: TouchStatus::Release, x: 0, y: 0 }),
    {
        Self { ll: Ft6336uInterface::new(i2c), touch_data: TouchData::default() }
    }
}

impl<I2CImpl: CurrentFt6336uDriverInterface> Ft6336u<I2CImpl> {
    /// The raw bus transactions the driver has driven through its
    /// interface, oldest first: the model every accessor's contract
    /// speaks of.
    pub closed spec fn history(&self) -> Seq<BusTransaction> {
        self.ll.history()
    }

    /// Read one byte-wide register: one read transaction of that
    /// register, whose byte is returned unmodified. Never touches the
    /// report.
    fn read_one(&mut self, address: u8) -> (r: Result<u8, Ft6336uError<I2CImpl::BusError>>)
        ensures
            (r matches Ok(b) ==> spec_reg_read(
                old(self).history(),
                final(self).history(),
                address,
                seq![b],
            )),
            (r matches Err(e) ==> e is I2c),
            final(self)@ == old(self)@,
    {
        match self.ll.read_register(address, 1) {
            Ok(data) => {
                proof {
                    assert(data@ =~= seq![data@[0]]);
                }
                Ok(data[0])
            },
            Err(e) => Err(e),
        }
    }

    /// Read two consecutive byte-wide registers in one transaction,
    /// returning both bytes unmodified. Never touches the report.
    fn read_two(&mut self, address: u8) -> (r: Result<(u8, u8), Ft6336uError<I2CImpl::BusError>>)
        ensures
            (r matches Ok(p) ==> spec_reg_read(
                old(self).history(),
                final(self).history(),
                address,
                seq![p.0, p.1],
            )),
            (r matches Err(e) ==> e is I2c),
            final(self)@ == old(self)@,
    {
        match self.ll.read_register(address, 2) {
            Ok(data) => {
                proof {
                    assert(data@ =~= seq![data@[0], data@[1]]);
                }
                Ok((data[0], data[1]))
            },
            Err(e) => Err(e),
        }
    }

    /// Write one byte-wide register: one write transaction carrying the
    /// address byte and the value. The one-byte payload always fits the
    /// scratch buffer. Never touches the report.
    fn write_one(&mut self, address: u8, value: u8) -> (r: Result<
        (),
        Ft6336uError<I2CImpl::BusError>,
    >)
        ensures
            (r matches Ok(u) ==> spec_reg_write(
                old(self).history(),
                final(self).history(),
                address,
                seq![value],
            )),
            (r matches Err(e) ==> e is I2c),
            final(self)@ == old(self)@,
    {
        let mut payload: Vec<u8> = Vec::new();
        payload.push(value);
        proof {
            assert(payload@ =~= seq![value]);
        }
        self.ll.write_register(address, payload.as_slice())
    }

    /// Read-modify-write one field of a byte-wide register: one read of
    /// the register returning some byte, then one write putting `value`
    /// under `mask` while keeping the byte's other bits. Never touches
    /// the report.
    fn modify_one(&mut self, address: u8, mask: u8, shift: u8, value: u8) -> (r: Result<
        (),
        Ft6336uError<I2CImpl::BusError>,
    >)
        requires
            shift < 8,
        ensures
            (r matches Ok(u) ==> exists|data: Seq<u8>, payload: Seq<u8>|
                data.len() == 1 && payload == seq![(data[0] & !mask) | ((value << shift) & mask)]
                    && #[trigger] spec_reg_rmw(
                    old(self).history(),
                    final(self).history(),
                    address,
                    data,
                    payload,
                )),
            (r matches Err(e) ==> e is I2c),
            final(self)@ == old(self)@,
    {
        let current = match self.read_one(address) {
            Ok(b) => b,
            Err(e) => {
                return Err(e);
            },
        };
        let updated = (current & !mask) | ((value << shift) & mask);
        let r = self.write_one(address, updated);
        proof {
            if r is Ok {
                assert(spec_reg_rmw(
                    old(self).history(),
                    self.ll.history(),
                    address,
                    seq![current],
                    seq![updated],
                ));
            }
        }
        r
    }

    /// Read the operating mode: one read of the device mode register,
    /// classifying bits 6:4 of the byte it returned.
    pub fn read_device_mode(&mut self) -> (r: Result<DeviceMode, Ft6336uError<I2CImpl::BusError>>)
        ensures
            (r matches Ok(m) ==> exists|data: Seq<u8>|
                data.len() == 1 && m == spec_device_mode_from_bits((data[0] & 0x70) >> 4)
                    && #[trigger] spec_reg_read(
                    old(self).history(),
                    final(self).history(),
                    REG_DEVICE_MODE,
                    data,
                )),
            (r matches Err(e) ==> e is I2c),
            final(self)@ == old(self)@,
    {
        match self.read_one(REG_DEVICE_MODE) {
            Ok(b) => {
                let bits = (b & 0x70) >> 4;
                Ok(device_mode_from_bits(bits))
            },
            Err(e) => Err(e),
        }
    }

    /// Write the operating mode: a read-modify-write pair on the device
    /// mode register replacing bits 6:4 by the encoded mode.
    pub fn write_device_mode(&mut self, mode: DeviceMode) -> (r: Result<
        (),
        Ft6336uError<I2CImpl::BusError>,
    >)
        ensures
            (r matches Ok(u) ==> exists|data: Seq<u8>, payload: Seq<u8>|
                data.len() == 1 && payload == seq![
                    (data[0] & !0x70) | ((spec_device_mode_bits(mode) << 4) & 0x70),
                ] && #[trigger] spec_reg_rmw(
                    old(self).history(),
                    final(self).history(),
                    REG_DEVICE_MODE,
                    data,
                    payload,
                )),
            (r matches Err(e) ==> e is I2c),
            final(self)@ == old(self)@,
    {
        let bits = device_mode_bits(mode);
        self.modify_one(REG_DEVICE_MODE, 0x70, 4, bits)
    }

    /// Read the gesture: one read of the gesture id register,
    /// classifying the byte it returned.
    pub fn read_gesture_id(&mut self) -> (r: Result<GestureId, Ft6336uError<I2CImpl::BusError>>)
        ensures
            (r matches Ok(g) ==> exists|data: Seq<u8>|
                data.len() == 1 && g == spec_gesture_from_bits(data[0]) && #[trigger] spec_reg_read(
                    old(self).history(),
                    final(self).history(),
                    REG_GESTURE_ID,
                    data,
                )),
            (r matches Err(e) ==> e is I2c),
            final(self)@ == old(self)@,
    {
        match self.read_one(REG_GESTURE_ID) {
            Ok(b) => Ok(gesture_from_bits(b)),
            Err(e) => Err(e),
        }
    }

    /// Read the claimed touch count: one read of the touch-detection
    /// status register; the count is the low nibble of the byte it
    /// returned, so at most 15.
    pub fn read_touch_count(&mut self) -> (r: Result<u8, Ft6336uError<I2CImpl::BusError>>)
        ensures
            (r matches Ok(c) ==> c <= 15 && exists|data: Seq<u8>|
                data.len() == 1 && c == (data[0] & 0x0F) && #[trigger] spec_reg_read(
                    old(self).history(),
                    final(self).history(),
                    REG_TD_STATUS,
                    data,
                )),
            (r matches Err(e) ==> e is I2c),
            final(self)@ == old(self)@,
    {
        match self.read_one(REG_TD_STATUS) {
            Ok(b) => {
                let c = b & 0x0F;
                proof {
                    assert(b & 0x0F <= 15) by (bit_vector);
                }
                Ok(c)
            },
            Err(e) => Err(e),
        }
    }

    /// Read the x coordinate of one point record: one two-byte read at
    /// its XEvent-high register, assembled as the 12-bit big-endian
    /// value of the low nibble of the first byte and the whole second
    /// byte.
    pub fn read_touch_x(&mut self, point: usize) -> (r: Result<
        u16,
        Ft6336uError<I2CImpl::BusError>,
    >)
        requires
            point < 2,
        ensures
            (r matches Ok(x) ==> x <= 0x0FFF && exists|data: Seq<u8>|
                data.len() == 2 && x == ((data[0] & 0x0F) as u16) << 8 | (data[1] as u16)
                    && #[trigger] spec_reg_read(
                    old(self).history(),
                    final(self).history(),
                    spec_point_reg(point as int, 0),
                    data,
                )),
            (r matches Err(e) ==> e is I2c),
            final(self)@ == old(self)@,
    {
        let address = REG_P1_XH + 6 * (point as u8);
        proof {
            assert(address == spec_point_reg(point as int, 0));
        }
        match self.read_two(address) {
            Ok((hi, lo)) => {
                let x = ((hi & 0x0F) as u16) << 8 | lo as u16;
                proof {
                    assert(((hi & 0x0F) as u16) << 8 | (lo as u16) <= 0x0FFF) by (bit_vector);
                }
                Ok(x)
            },
            Err(e) => Err(e),
        }
    }

    /// Read the y coordinate of one point record: one two-byte read at
    /// its YId-high register, assembled as the 12-bit big-endian value
    /// of the low nibble of the first byte and the whole second byte.
    pub fn read_touch_y(&mut self, point: usize) -> (r: Result<
        u16,
        Ft6336uError<I2CImpl::BusError>,
    >)
        requires
            point < 2,
        ensures
            (r matches Ok(y) ==> y <= 0x0FFF && exists|data: Seq<u8>|
                data.len() == 2 && y == ((data[0] & 0x0F) as u16) << 8 | (data[1] as u16)
                    && #[trigger] spec_reg_read(
                    old(self).history(),
                    final(self).history(),
                    spec_point_reg(point as int, 2),
                    data,
                )),
            (r matches Err(e) ==> e is I2c),
            final(self)@ == old(self)@,
    {
        let address = REG_P1_XH + 2 + 6 * (point as u8);
        proof {
            assert(address == spec_point_reg(point as int, 2));
        }
        match self.read_two(address) {
            Ok((hi, lo)) => {
                let y = ((hi & 0x0F) as u16) << 8 | lo as u16;
                proof {
                    assert(((hi & 0x0F) as u16) << 8 | (lo as u16) <= 0x0FFF) by (bit_vector);
                }
                Ok(y)
            },
            Err(e) => Err(e),
        }
    }

    /// Read the event code of one point record: one read of its
    /// XEvent-high register, classifying the top two bits of the byte
    /// it returned.
    pub fn read_touch_event(&mut self, point: usize) -> (r: Result<
        TouchEvent,
        Ft6336uError<I2CImpl::BusError>,
    >)
        requires
            point < 2,
        ensures
            (r matches Ok(ev) ==> exists|data: Seq<u8>|
                data.len() == 1 && ev == spec_touch_event_from_bits(data[0] >> 6)
                    && #[trigger] spec_reg_read(
                    old(self).history(),
                    final(self).history(),
                    spec_point_reg(point as int, 0),
                    data,
                )),
            (r matches Err(e) ==> e is I2c),
            final(self)@ == old(self)@,
    {
        let address = REG_P1_XH + 6 * (point as u8);
        proof {
            assert(address == spec_point_reg(point as int, 0));
        }
        match self.read_one(address) {
            Ok(b) => {
                let bits = b >> 6;
                Ok(touch_event_from_bits(bits))
            },
            Err(e) => Err(e),
        }
    }

    /// Read the slot id of one point record: one read of its YId-high
    /// register; the id is the byte's high nibble, so at most 15. Ids
    /// outside the two physical slots are possible and are not an error
    /// here — exclusion happens during a scan, not in this accessor.
    pub fn read_touch_id(&mut self, point: usize) -> (r: Result<
        u8,
        Ft6336uError<I2CImpl::BusError>,
    >)
        requires
            point < 2,
        ensures
            (r matches Ok(id) ==> id <= 15 && exists|data: Seq<u8>|
                data.len() == 1 && id == data[0] >> 4 && #[trigger] spec_reg_read(
                    old(self).history(),
                    final(self).history(),
                    spec_point_reg(point as int, 2),
                    data,
                )),
            (r matches Err(e) ==> e is I2c),
            final(self)@ == old(self)@,
    {
        let address = REG_P1_XH + 2 + 6 * (point as u8);
        proof {
            assert(address == spec_point_reg(point as int, 2));
        }
        match self.read_one(address) {
            Ok(b) => {
                let id = b >> 4;
                proof {
                    assert(b >> 4 <= 15) by (bit_vector);
                }
                Ok(id)
            },
            Err(e) => Err(e),
        }
    }

    /// Read the weight byte of one point record: one read of its weight
    /// register, passed through undecoded.
    pub fn read_touch_weight(&mut self, point: usize) -> (r: Result<
        u8,
        Ft6336uError<I2CImpl::BusError>,
    >)
        requires
            point < 2,
        ensures
            (r matches Ok(w) ==> spec_reg_read(
                old(self).history(),
                final(self).history(),
                spec_point_reg(point as int, 4),
                seq![w],
            )),
            (r matches Err(e) ==> e is I2c),
            final(self)@ == old(self)@,
    {
        let address = REG_P1_XH + 4 + 6 * (point as u8);
        proof {
            assert(address == spec_point_reg(point as int, 4));
        }
        self.read_one(address)
    }

    /// Read the touch area of one point record: one read of its
    /// area/misc register; the area is the byte's high nibble, so at
    /// most 15.
    pub fn read_touch_area(&mut self, point: usize) -> (r: Result<
        u8,
        Ft6336uError<I2CImpl::BusError>,
    >)
        requires
            point < 2,
        ensures
            (r matches Ok(area) ==> area <= 15 && exists|data: Seq<u8>|
                data.len() == 1 && area == data[0] >> 4 && #[trigger] spec_reg_read(
                    old(self).history(),
                    final(self).history(),
                    spec_point_reg(point as int, 5),
                    data,
                )),
            (r matches Err(e) ==> e is I2c),
            final(self)@ == old(self)@,
    {
        let address = REG_P1_XH + 5 + 6 * (point as u8);
        proof {
            assert(address == spec_point_reg(point as int, 5));
        }
        match self.read_one(address) {
            Ok(b) => {
                let area = b >> 4;
                proof {
                    assert(b >> 4 <= 15) by (bit_vector);
                }
                Ok(area)
            },
            Err(e) => Err(e),
        }
    }

    /// Read the touch threshold register: one read, the byte passed
    /// through unmodified.
    pub fn read_touch_threshold(&mut self) -> (r: Result<u8, Ft6336uError<I2CImpl::BusError>>)
        ensures
            (r matches Ok(v) ==> spec_reg_read(
                old(self).history(),
                final(self).history(),
                REG_THRESHOLD,
                seq![v],
            )),
            (r matches Err(e) ==> e is I2c),
            final(self)@ == old(self)@,
    {
        self.read_one(REG_THRESHOLD)
    }

    /// Write the touch threshold register: one write of `val` to it.
    pub fn write_touch_threshold(&mut self, val: u8) -> (r: Result<
        (),
        Ft6336uError<I2CImpl::BusError>,
    >)
        ensures
            (r matches Ok(u) ==> spec_reg_write(
                old(self).history(),
                final(self).history(),
                REG_THRESHOLD,
                seq![val],
            )),
            (r matches Err(e) ==> e is I2c),
            final(self)@ == old(self)@,
    {
        self.write_one(REG_THRESHOLD, val)
    }

    /// Read the filter coefficient register: one read, the byte passed
    /// through unmodified.
    pub fn read_filter_coefficient(&mut self) -> (r: Result<u8, Ft6336uError<I2CImpl::BusError>>)
        ensures
            (r matches Ok(v) ==> spec_reg_read(
                old(self).history(),
                final(self).history(),
                REG_FILTER_COEFFICIENT,
                seq![v],
            )),
            (r matches Err(e) ==> e is I2c),
            final(self)@ == old(self)@,
    {
        self.read_one(REG_FILTER_COEFFICIENT)
    }

    /// Write the filter coefficient register: one write of `val` to it.
    pub fn write_filter_coefficient(&mut self, val: u8) -> (r: Result<
        (),
        Ft6336uError<I2CImpl::BusError>,
    >)
        ensures
            (r matches Ok(u) ==> spec_reg_write(
                old(self).history(),
                final(self).history(),
                REG_FILTER_COEFFICIENT,
                seq![val],
            )),
            (r matches Err(e) ==> e is I2c),
            final(self)@ == old(self)@,
    {
        self.write_one(REG_FILTER_COEFFICIENT, val)
    }

    /// Read the control register: one read, classifying the byte it
    /// returned.
    pub fn read_ctrl_mode(&mut self) -> (r: Result<CtrlMode, Ft6336uError<I2CImpl::BusError>>)
        ensures
            (r matches Ok(m) ==> exists|data: Seq<u8>|
                data.len() == 1 && m == spec_ctrl_mode_from_bits(data[0])
                    && #[trigger] spec_reg_read(
                    old(self).history(),
                    final(self).history(),
                    REG_CTRL,
                    data,
                )),
            (r matches Err(e) ==> e is I2c),
            final(self)@ == old(self)@,
    {
        match self.read_one(REG_CTRL) {
            Ok(b) => Ok(ctrl_mode_from_bits(b)),
            Err(e) => Err(e),
        }
    }

    /// Write the control register: one write of the encoded mode to it.
    pub fn write_ctrl_mode(&mut self, mode: CtrlMode) -> (r: Result<
        (),
        Ft6336uError<I2CImpl::BusError>,
    >)
        ensures
            (r matches Ok(u) ==> spec_reg_write(
                old(self).history(),
                final(self).history(),
                REG_CTRL,
                seq![spec_ctrl_mode_bits(mode)],
            )),
            (r matches Err(e) ==> e is I2c),
            final(self)@ == old(self)@,
    {
        let bits = ctrl_mode_bits(mode);
        self.write_one(REG_CTRL, bits)
    }

    /// Read the time-enter-monitor register: one read, the byte passed
    /// through unmodified.
    pub fn read_time_enter_monitor(&mut self) -> (r: Result<u8, Ft6336uError<I2CImpl::BusError>>)
        ensures
            (r matches Ok(v) ==> spec_reg_read(
                old(self).history(),
                final(self).history(),
                REG_TIME_ENTER_MONITOR,
                seq![v],
            )),
            (r matches Err(e) ==> e is I2c),
            final(self)@ == old(self)@,
    {
        self.read_one(REG_TIME_ENTER_MONITOR)
    }

    /// Write the time-enter-monitor register: one write of `val` to it.
    pub fn write_time_enter_monitor(&mut self, val: u8) -> (r: Result<
        (),
        Ft6336uError<I2CImpl::BusError>,
    >)
        ensures
            (r matches Ok(u) ==> spec_reg_write(
                old(self).history(),
                final(self).history(),
                REG_TIME_ENTER_MONITOR,
                seq![val],
            )),
            (r matches Err(e) ==> e is I2c),
            final(self)@ == old(self)@,
    {
        self.write_one(REG_TIME_ENTER_MONITOR, val)
    }

    /// Read the active mode report rate register: one read, the byte
    /// passed through unmodified.
    pub fn read_active_rate(&mut self) -> (r: Result<u8, Ft6336uError<I2CImpl::BusError>>)
        ensures
            (r matches Ok(v) ==> spec_reg_read(
                old(self).history(),
                final(self).history(),
                REG_ACTIVE_MODE_RATE,
                seq![v],
            )),
            (r matches Err(e) ==> e is I2c),
            final(self)@ == old(self)@,
    {
        self.read_one(REG_ACTIVE_MODE_RATE)
    }

    /// Write the active mode report rate register: one write of `val`
    /// to it.
    pub fn write_active_rate(&mut self, val: u8) -> (r: Result<
        (),
        Ft6336uError<I2CImpl::BusError>,
    >)
        ensures
            (r matches Ok(u) ==> spec_reg_write(
                old(self).history(),
                final(self).history(),
                REG_ACTIVE_MODE_RATE,
                seq![val],
            )),
            (r matches Err(e) ==> e is I2c),
            final(self)@ == old(self)@,
    {
        self.write_one(REG_ACTIVE_MODE_RATE, val)
    }

    /// Read the monitor mode report rate register: one read, the byte
    /// passed through unmodified.
    pub fn read_monitor_rate(&mut self) -> (r: Result<u8, Ft6336uError<I2CImpl::BusError>>)
        ensures
            (r matches Ok(v) ==> spec_reg_read(
                old(self).history(),
                final(self).history(),
                REG_MONITOR_MODE_RATE,
                seq![v],
            )),
            (r matches Err(e) ==> e is I2c),
            final(self)@ == old(self)@,
    {
        self.read_one(REG_MONITOR_MODE_RATE)
    }

    /// Write the monitor mode report rate register: one write of `val`
    /// to it.
    pub fn write_monitor_rate(&mut self, val: u8) -> (r: Result<
        (),
        Ft6336uError<I2CImpl::BusError>,
    >)
        ensures
            (r matches Ok(u) ==> spec_reg_write(
                old(self).history(),
                final(self).history(),
                REG_MONITOR_MODE_RATE,
                seq![val],
            )),
            (r matches Err(e) ==> e is I2c),
            final(self)@ == old(self)@,
    {
        self.write_one(REG_MONITOR_MODE_RATE, val)
    }

    /// Read the frequency hopping enable register: one read, the byte
    /// passed through unmodified.
    pub fn read_freq_hopping_en(&mut self) -> (r: Result<u8, Ft6336uError<I2CImpl::BusError>>)
        ensures
            (r matches Ok(v) ==> spec_reg_read(
                old(self).history(),
                final(self).history(),
                REG_FREQ_HOPPING_EN,
                seq![v],
            )),
            (r matches Err(e) ==> e is I2c),
            final(self)@ == old(self)@,
    {
        self.read_one(REG_FREQ_HOPPING_EN)
    }

    /// Write the frequency hopping enable register: one write of `val`
    /// to it.
    pub fn write_freq_hopping_en(&mut self, val: u8) -> (r: Result<
        (),
        Ft6336uError<I2CImpl::BusError>,
    >)
        ensures
            (r matches Ok(u) ==> spec_reg_write(
                old(self).history(),
                final(self).history(),
                REG_FREQ_HOPPING_EN,
                seq![val],
            )),
            (r matches Err(e) ==> e is I2c),
            final(self)@ == old(self)@,
    {
        self.write_one(REG_FREQ_HOPPING_EN, val)
    }

    /// Read the gesture radian value register: one read, the byte
    /// passed through unmodified.
    pub fn read_radian_value(&mut self) -> (r: Result<u8, Ft6336uError<I2CImpl::BusError>>)
        ensures
            (r matches Ok(v) ==> spec_reg_read(
                old(self).history(),
                final(self).history(),
                REG_RADIAN_VALUE,
                seq![v],
            )),
            (r matches Err(e) ==> e is I2c),
            final(self)@ == old(self)@,
    {
        self.read_one(REG_RADIAN_VALUE)
    }

    /// Write the gesture radian value register: one write of `val` to
    /// it.
    pub fn write_radian_value(&mut self, val: u8) -> (r: Result<
        (),
        Ft6336uError<I2CImpl::BusError>,
    >)
        ensures
            (r matches Ok(u) ==> spec_reg_write(
                old(self).history(),
                final(self).history(),
                REG_RADIAN_VALUE,
                seq![val],
            )),
            (r matches Err(e) ==> e is I2c),
            final(self)@ == old(self)@,
    {
        self.write_one(REG_RADIAN_VALUE, val)
    }

    /// Read the gesture left/right offset register: one read, the byte
    /// passed through unmodified.
    pub fn read_offset_left_right(&mut self) -> (r: Result<u8, Ft6336uError<I2CImpl::BusError>>)
        ensures
            (r matches Ok(v) ==> spec_reg_read(
                old(self).history(),
                final(self).history(),
                REG_OFFSET_LEFT_RIGHT,
                seq![v],
            )),
            (r matches Err(e) ==> e is I2c),
            final(self)@ == old(self)@,
    {
        self.read_one(REG_OFFSET_LEFT_RIGHT)
    }

    /// Write the gesture left/right offset register: one write of `val`
    /// to it.
    pub fn write_offset_left_right(&mut self, val: u8) -> (r: Result<
        (),
        Ft6336uError<I2CImpl::BusError>,
    >)
        ensures
            (r matches Ok(u) ==> spec_reg_write(
                old(self).history(),
                final(self).history(),
                REG_OFFSET_LEFT_RIGHT,
                seq![val],
            )),
            (r matches Err(e) ==> e is I2c),
            final(self)@ == old(self)@,
    {
        self.write_one(REG_OFFSET_LEFT_RIGHT, val)
    }

    /// Read the gesture up/down offset register: one read, the byte
    /// passed through unmodified.
    pub fn read_offset_up_down(&mut self) -> (r: Result<u8, Ft6336uError<I2CImpl::BusError>>)
        ensures
            (r matches Ok(v) ==> spec_reg_read(
                old(self).history(),
                final(self).history(),
                REG_OFFSET_UP_DOWN,
                seq![v],
            )),
            (r matches Err(e) ==> e is I2c),
            final(self)@ == old(self)@,
    {
        self.read_one(REG_OFFSET_UP_DOWN)
    }

    /// Write the gesture up/down offset register: one write of `val` to
    /// it.
    pub fn write_offset_up_down(&mut self, val: u8) -> (r: Result<
        (),
        Ft6336uError<I2CImpl::BusError>,
    >)
        ensures
            (r matches Ok(u) ==> spec_reg_write(
                old(self).history(),
                final(self).history(),
                REG_OFFSET_UP_DOWN,
                seq![val],
            )),
            (r matches Err(e) ==> e is I2c),
            final(self)@ == old(self)@,
    {
        self.write_one(REG_OFFSET_UP_DOWN, val)
    }

    /// Read the gesture left/right distance register: one read, the
    /// byte passed through unmodified.
    pub fn read_distance_left_right(&mut self) -> (r: Result<u8, Ft6336uError<I2CImpl::BusError>>)
        ensures
            (r matches Ok(v) ==> spec_reg_read(
                old(self).history(),
                final(self).history(),
                REG_DISTANCE_LEFT_RIGHT,
                seq![v],
            )),
            (r matches Err(e) ==> e is I2c),
            final(self)@ == old(self)@,
    {
        self.read_one(REG_DISTANCE_LEFT_RIGHT)
    }

    /// Write the gesture left/right distance register: one write of
    /// `val` to it.
    pub fn write_distance_left_right(&mut self, val: u8) -> (r: Result<
        (),
        Ft6336uError<I2CImpl::BusError>,
    >)
        ensures
            (r matches Ok(u) ==> spec_reg_write(
                old(self).history(),
                final(self).history(),
                REG_DISTANCE_LEFT_RIGHT,
                seq![val],
            )),
            (r matches Err(e) ==> e is I2c),
            final(self)@ == old(self)@,
    {
        self.write_one(REG_DISTANCE_LEFT_RIGHT, val)
    }

    /// Read the gesture up/down distance register: one read, the byte
    /// passed through unmodified.
    pub fn read_distance_up_down(&mut self) -> (r: Result<u8, Ft6336uError<I2CImpl::BusError>>)
        ensures
            (r matches Ok(v) ==> spec_reg_read(
                old(self).history(),
                final(self).history(),
                REG_DISTANCE_UP_DOWN,
                seq![v],
            )),
            (r matches Err(e) ==> e is I2c),
            final(self)@ == old(self)@,
    {
        self.read_one(REG_DISTANCE_UP_DOWN)
    }

    /// Write the gesture up/down distance register: one write of `val`
    /// to it.
    pub fn write_distance_up_down(&mut self, val: u8) -> (r: Result<
        (),
        Ft6336uError<I2CImpl::BusError>,
    >)
        ensures
            (r matches Ok(u) ==> spec_reg_write(
                old(self).history(),
                final(self).history(),
                REG_DISTANCE_UP_DOWN,
                seq![val],
            )),
            (r matches Err(e) ==> e is I2c),
            final(self)@ == old(self)@,
    {
        self.write_one(REG_DISTANCE_UP_DOWN, val)
    }

    /// Read the gesture zoom distance register: one read, the byte
    /// passed through unmodified.
    pub fn read_distance_zoom(&mut self) -> (r: Result<u8, Ft6336uError<I2CImpl::BusError>>)
        ensures
            (r matches Ok(v) ==> spec_reg_read(
                old(self).history(),
                final(self).history(),
                REG_DISTANCE_ZOOM,
                seq![v],
            )),
            (r matches Err(e) ==> e is I2c),
            final(self)@ == old(self)@,
    {
        self.read_one(REG_DISTANCE_ZOOM)
    }

    /// Write the gesture zoom distance register: one write of `val` to
    /// it.
    pub fn write_distance_zoom(&mut self, val: u8) -> (r: Result<
        (),
        Ft6336uError<I2CImpl::BusError>,
    >)
        ensures
            (r matches Ok(u) ==> spec_reg_write(
                old(self).history(),
                final(self).history(),
                REG_DISTANCE_ZOOM,
                seq![val],
            )),
            (r matches Err(e) ==> e is I2c),
            final(self)@ == old(self)@,
    {
        self.write_one(REG_DISTANCE_ZOOM, val)
    }

    /// Read the middle vendor id byte: one read, the byte passed
    /// through unmodified.
    pub fn read_cipher_mid(&mut self) -> (r: Result<u8, Ft6336uError<I2CImpl::BusError>>)
        ensures
            (r matches Ok(v) ==> spec_reg_read(
                old(self).history(),
                final(self).history(),
                REG_CIPHER_MID,
                seq![v],
            )),
            (r matches Err(e) ==> e is I2c),
            final(self)@ == old(self)@,
    {
        self.read_one(REG_CIPHER_MID)
    }

    /// Read the low vendor id byte: one read, the byte passed through
    /// unmodified.
    pub fn read_cipher_low(&mut self) -> (r: Result<u8, Ft6336uError<I2CImpl::BusError>>)
        ensures
            (r matches Ok(v) ==> spec_reg_read(
                old(self).history(),
                final(self).history(),
                REG_CIPHER_LOW,
                seq![v],
            )),
            (r matches Err(e) ==> e is I2c),
            final(self)@ == old(self)@,
    {
        self.read_one(REG_CIPHER_LOW)
    }

    /// Read the 16-bit library version: one two-byte read starting at
    /// the high version register, assembled big-endian.
    pub fn read_library_version(&mut self) -> (r: Result<u16, Ft6336uError<I2CImpl::BusError>>)
        ensures
            (r matches Ok(v) ==> exists|data: Seq<u8>|
                data.len() == 2 && v == (data[0] as u16) << 8 | (data[1] as u16)
                    && #[trigger] spec_reg_read(
                    old(self).history(),
                    final(self).history(),
                    REG_LIBRARY_VERSION_H,
                    data,
                )),
            (r matches Err(e) ==> e is I2c),
            final(self)@ == old(self)@,
    {
        match self.read_two(REG_LIBRARY_VERSION_H) {
            Ok((hi, lo)) => Ok((hi as u16) << 8 | lo as u16),
            Err(e) => Err(e),
        }
    }

    /// Read the chip id register: one read, the byte passed through
    /// unmodified.
    pub fn read_chip_id(&mut self) -> (r: Result<u8, Ft6336uError<I2CImpl::BusError>>)
        ensures
            (r matches Ok(v) ==> spec_reg_read(
                old(self).history(),
                final(self).history(),
                REG_CHIP_ID,
                seq![v],
            )),
            (r matches Err(e) ==> e is I2c),
            final(self)@ == old(self)@,
    {
        self.read_one(REG_CHIP_ID)
    }

    /// Read the gesture mode register: one read, classifying the byte
    /// it returned.
    pub fn read_g_mode(&mut self) -> (r: Result<GestureMode, Ft6336uError<I2CImpl::BusError>>)
        ensures
            (r matches Ok(m) ==> exists|data: Seq<u8>|
                data.len() == 1 && m == spec_gesture_mode_from_bits(data[0])
                    && #[trigger] spec_reg_read(
                    old(self).history(),
                    final(self).history(),
                    REG_G_MODE,
                    data,
                )),
            (r matches Err(e) ==> e is I2c),
            final(self)@ == old(self)@,
    {
        match self.read_one(REG_G_MODE) {
            Ok(b) => Ok(gesture_mode_from_bits(b)),
            Err(e) => Err(e),
        }
    }

    /// Write the gesture mode register: one write of the encoded mode
    /// to it.
    pub fn write_g_mode(&mut self, mode: GestureMode) -> (r: Result<
        (),
        Ft6336uError<I2CImpl::BusError>,
    >)
        ensures
            (r matches Ok(u) ==> spec_reg_write(
                old(self).history(),
                final(self).history(),
                REG_G_MODE,
                seq![spec_gesture_mode_bits(mode)],
            )),
            (r matches Err(e) ==> e is I2c),
            final(self)@ == old(self)@,
    {
        let bits = gesture_mode_bits(mode);
        self.write_one(REG_G_MODE, bits)
    }

    /// Read the power mode register: one read, classifying the byte it
    /// returned.
    pub fn read_power_mode(&mut self) -> (r: Result<PowerModeEnum, Ft6336uError<I2CImpl::BusError>>)
        ensures
            (r matches Ok(m) ==> exists|data: Seq<u8>|
                data.len() == 1 && m == spec_power_mode_from_bits(data[0])
                    && #[trigger] spec_reg_read(
                    old(self).history(),
                    final(self).history(),
                    REG_POWER_MODE,
                    data,
                )),
            (r matches Err(e) ==> e is I2c),
            final(self)@ == old(self)@,
    {
        match self.read_one(REG_POWER_MODE) {
            Ok(b) => Ok(power_mode_from_bits(b)),
            Err(e) => Err(e),
        }
    }

    /// Write the power mode register: one write of the encoded mode to
    /// it.
    pub fn write_power_mode(&mut self, mode: PowerModeEnum) -> (r: Result<
        (),
        Ft6336uError<I2CImpl::BusError>,
    >)
        ensures
            (r matches Ok(u) ==> spec_reg_write(
                old(self).history(),
                final(self).history(),
                REG_POWER_MODE,
                seq![spec_power_mode_bits(mode)],
            )),
            (r matches Err(e) ==> e is I2c),
            final(self)@ == old(self)@,
    {
        let bits = power_mode_bits(mode);
        self.write_one(REG_POWER_MODE, bits)
    }

    /// Read the firmware version register: one read, the byte passed
    /// through unmodified.
    pub fn read_firmware_id(&mut self) -> (r: Result<u8, Ft6336uError<I2CImpl::BusError>>)
        ensures
            (r matches Ok(v) ==> spec_reg_read(
                old(self).history(),
                final(self).history(),
                REG_FIRMWARE_ID,
                seq![v],
            )),
            (r matches Err(e) ==> e is I2c),
            final(self)@ == old(self)@,
    {
        self.read_one(REG_FIRMWARE_ID)
    }

    /// Read the vendor id register: one read, the byte passed through
    /// unmodified.
    pub fn read_focaltech_id(&mut self) -> (r: Result<u8, Ft6336uError<I2CImpl::BusError>>)
        ensures
            (r matches Ok(v) ==> spec_reg_read(
                old(self).history(),
                final(self).history(),
                REG_FOCALTECH_ID,
                seq![v],
            )),
            (r matches Err(e) ==> e is I2c),
            final(self)@ == old(self)@,
    {
        self.read_one(REG_FOCALTECH_ID)
    }

    /// Read the release code register: one read, the byte passed
    /// through unmodified.
    pub fn read_release_code_id(&mut self) -> (r: Result<u8, Ft6336uError<I2CImpl::BusError>>)
        ensures
            (r matches Ok(v) ==> spec_reg_read(
                old(self).history(),
                final(self).history(),
                REG_RELEASE_CODE_ID,
                seq![v],
            )),
            (r matches Err(e) ==> e is I2c),
            final(self)@ == old(self)@,
    {
        self.read_one(REG_RELEASE_CODE_ID)
    }

    /// Read the face detection mode register: one read, the byte passed
    /// through unmodified.
    pub fn read_face_dec_mode(&mut self) -> (r: Result<u8, Ft6336uError<I2CImpl::BusError>>)
        ensures
            (r matches Ok(v) ==> spec_reg_read(
                old(self).history(),
                final(self).history(),
                REG_FACE_DEC_MODE,
                seq![v],
            )),
            (r matches Err(e) ==> e is I2c),
            final(self)@ == old(self)@,
    {
        self.read_one(REG_FACE_DEC_MODE)
    }

    /// Write the face detection mode register: one write of `val` to
    /// it.
    pub fn write_face_dec_mode(&mut self, val: u8) -> (r: Result<
        (),
        Ft6336uError<I2CImpl::BusError>,
    >)
        ensures
            (r matches Ok(u) ==> spec_reg_write(
                old(self).history(),
                final(self).history(),
                REG_FACE_DEC_MODE,
                seq![val],
            )),
            (r matches Err(e) ==> e is I2c),
            final(self)@ == old(self)@,
    {
        self.write_one(REG_FACE_DEC_MODE, val)
    }

    /// Read the running state register: one read, the byte passed
    /// through unmodified.
    pub fn read_state(&mut self) -> (r: Result<u8, Ft6336uError<I2CImpl::BusError>>)
        ensures
            (r matches Ok(v) ==> spec_reg_read(
                old(self).history(),
                final(self).history(),
                REG_STATE,
                seq![v],
            )),
            (r matches Err(e) ==> e is I2c),
            final(self)@ == old(self)@,
    {
        self.read_one(REG_STATE)
    }

    /// Write the running state register: one write of `val` to it.
    pub fn write_state(&mut self, val: u8) -> (r: Result<(), Ft6336uError<I2CImpl::BusError>>)
        ensures
            (r matches Ok(u) ==> spec_reg_write(
                old(self).history(),
                final(self).history(),
                REG_STATE,
                seq![val],
            )),
            (r matches Err(e) ==> e is I2c),
            final(self)@ == old(self)@,
    {
        self.write_one(REG_STATE, val)
    }

    /// One polling cycle: read the whole touch block in a single
    /// write-then-read transaction at the status register, decode it,
    /// advance both slots, and return a copy of the updated report.
    ///
    /// On success the interface performed exactly that one batched
    /// 13-byte read — the torn-frame prevention spec'd for the scan —
    /// and the block it returned is the one whose decoded frame turns
    /// the previous report into the returned one, per
    /// [`spec_scan_result`]. On a bus fault the report is left
    /// unchanged from before the call.
    pub fn scan(&mut self) -> (r: Result<TouchData, Ft6336uError<I2CImpl::BusError>>)
        ensures
            (r matches Ok(data) ==> data == final(self)@ && exists|block: Seq<u8>|
                block.len() == TOUCH_BLOCK_LEN && #[trigger] spec_scan_result(
                    old(self)@,
                    block,
                    final(self)@,
                ) && spec_reg_read(
                    old(self).history(),
                    final(self).history(),
                    REG_TD_STATUS,
                    block,
                )),
            (r matches Err(e) ==> e is I2c && final(self)@ == old(self)@),
    {
        let block = match self.ll.read_register(REG_TD_STATUS, TOUCH_BLOCK_LEN) {
            Ok(b) => b,
            Err(e) => {
                return Err(e);
            },
        };
        let frame = decode_frame(&block);
        update_report(&mut self.touch_data, &frame);
        proof {
            assert(spec_scan_result(old(self)@, block@, self@));
        }
        Ok(self.touch_data)
    }
}

} // verus!
