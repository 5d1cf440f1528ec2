//! End-to-end driver tests over a canned bus transport.

use std::cell::RefCell;
use std::rc::Rc;

use ft6336u::BusTransport;
use ft6336u::CtrlMode;
use ft6336u::DeviceMode;
use ft6336u::Ft6336u;
use ft6336u::Ft6336uError;
use ft6336u::GestureId;
use ft6336u::GestureMode;
use ft6336u::PowerModeEnum;
use ft6336u::TouchEvent;
use ft6336u::TouchStatus;

#[derive(Debug, Clone, PartialEq, Eq)]
enum Transaction {
    WriteRead(Vec<u8>, usize),
    Write(Vec<u8>),
}

struct CannedBus {
    log: Rc<RefCell<Vec<Transaction>>>,
    read_responses: Rc<RefCell<Vec<Result<Vec<u8>, u8>>>>,
}

fn canned_driver() -> (
    Ft6336u<ft6336u::Ft6336uInterface<CannedBus>>,
    Rc<RefCell<Vec<Transaction>>>,
    Rc<RefCell<Vec<Result<Vec<u8>, u8>>>>,
) {
    let log = Rc::new(RefCell::new(Vec::new()));
    let responses = Rc::new(RefCell::new(Vec::new()));
    let bus = CannedBus { log: log.clone(), read_responses: responses.clone() };
    (Ft6336u::new(bus), log, responses)
}

impl BusTransport for CannedBus {
    type BusError = u8;

    fn transact_write_read(&mut self, out: &[u8], len: usize) -> Result<Vec<u8>, u8> {
        self.log.borrow_mut().push(Transaction::WriteRead(out.to_vec(), len));
        let r = self.read_responses.borrow_mut().remove(0);
        if let Ok(data) = &r {
            assert_eq!(data.len(), len, "canned response must match the requested length");
        }
        r
    }

    fn transact_write(&mut self, out: &[u8]) -> Result<(), u8> {
        self.log.borrow_mut().push(Transaction::Write(out.to_vec()));
        Ok(())
    }
}

/// A 13-byte touch block: status byte, then two 6-byte records.
fn block(status: u8, rec0: [u8; 6], rec1: [u8; 6]) -> Vec<u8> {
    let mut b = vec![status];
    b.extend_from_slice(&rec0);
    b.extend_from_slice(&rec1);
    b
}

#[test]
fn scan_lifecycle_touch_stream_release() {
    let (mut driver, log, responses) = canned_driver();
    let one_touch = block(0x01, [0x00, 0x64, 0x00, 0x32, 0, 0], [0; 6]);
    responses.borrow_mut().push(Ok(one_touch.clone()));

    // Starting all-Release, one touch at slot 0, (100, 50).
    let report = driver.scan().expect("scan");
    assert_eq!(report.touch_count, 1);
    assert_eq!(report.points[0].status, TouchStatus::Touch);
    assert_eq!(report.points[0].x, 100);
    assert_eq!(report.points[0].y, 50);
    assert_eq!(report.points[1].status, TouchStatus::Release);
    assert_eq!(report.points[1].x, 0);
    assert_eq!(report.points[1].y, 0);

    // The scan is one batched write-then-read of the whole block.
    assert_eq!(log.borrow().as_slice(), &[Transaction::WriteRead(vec![0x02], 13)]);

    // Re-scanning identical bytes: the slot streams.
    responses.borrow_mut().push(Ok(one_touch));
    let report = driver.scan().expect("scan");
    assert_eq!(report.points[0].status, TouchStatus::Stream);
    assert_eq!(report.points[0].x, 100);
    assert_eq!(report.points[0].y, 50);

    // A zero-count scan releases, keeping the last coordinates.
    responses.borrow_mut().push(Ok(block(0x00, [0; 6], [0; 6])));
    let report = driver.scan().expect("scan");
    assert_eq!(report.touch_count, 0);
    assert_eq!(report.points[0].status, TouchStatus::Release);
    assert_eq!(report.points[0].x, 100);
    assert_eq!(report.points[0].y, 50);
    assert_eq!(report.points[1].status, TouchStatus::Release);
}

#[test]
fn scan_bus_fault_leaves_report_unchanged() {
    let (mut driver, _log, responses) = canned_driver();
    let one_touch = block(0x01, [0x00, 0x64, 0x00, 0x32, 0, 0], [0; 6]);
    responses.borrow_mut().push(Ok(one_touch));
    let before = driver.scan().expect("scan");

    responses.borrow_mut().push(Err(7));
    let r = driver.scan();
    assert_eq!(r, Err(Ft6336uError::I2c(7)));

    // The next successful scan still sees the pre-fault statuses.
    responses.borrow_mut().push(Ok(block(0x00, [0; 6], [0; 6])));
    let after = driver.scan().expect("scan");
    assert_eq!(after.points[0].x, before.points[0].x);
    assert_eq!(after.points[0].y, before.points[0].y);
}

#[test]
fn scan_ignores_out_of_range_slot_records() {
    let (mut driver, _log, responses) = canned_driver();
    // Record 0 names slot 0xF: both slots must stay released.
    responses.borrow_mut().push(Ok(block(0x01, [0x00, 0x64, 0xF5, 0x32, 0, 0], [0; 6])));
    let report = driver.scan().expect("scan");
    assert_eq!(report.touch_count, 1);
    assert_eq!(report.points[0].status, TouchStatus::Release);
    assert_eq!(report.points[1].status, TouchStatus::Release);
}

#[test]
fn scan_reports_both_slots() {
    let (mut driver, _log, responses) = canned_driver();
    responses.borrow_mut().push(Ok(block(
        0x02,
        [0x00, 0x0A, 0x00, 0x0B, 0, 0],
        [0x00, 0x14, 0x10, 0x15, 0, 0],
    )));
    let report = driver.scan().expect("scan");
    assert_eq!(report.touch_count, 2);
    assert_eq!(report.points[0].status, TouchStatus::Touch);
    assert_eq!(report.points[0].x, 10);
    assert_eq!(report.points[0].y, 11);
    assert_eq!(report.points[1].status, TouchStatus::Touch);
    assert_eq!(report.points[1].x, 20);
    assert_eq!(report.points[1].y, 21);
}

#[test]
fn read_device_mode_decodes_field() {
    let (mut driver, log, responses) = canned_driver();
    responses.borrow_mut().push(Ok(vec![0x40]));
    assert_eq!(driver.read_device_mode(), Ok(DeviceMode::Factory));
    assert_eq!(log.borrow().as_slice(), &[Transaction::WriteRead(vec![0x00], 1)]);

    responses.borrow_mut().push(Ok(vec![0x00]));
    assert_eq!(driver.read_device_mode(), Ok(DeviceMode::Working));
}

#[test]
fn write_device_mode_read_modify_writes_field() {
    let (mut driver, log, responses) = canned_driver();
    responses.borrow_mut().push(Ok(vec![0x0F]));
    assert_eq!(driver.write_device_mode(DeviceMode::Factory), Ok(()));
    assert_eq!(
        log.borrow().as_slice(),
        &[
            Transaction::WriteRead(vec![0x00], 1),
            Transaction::Write(vec![0x00, 0x4F]),
        ]
    );
}

#[test]
fn read_gesture_id_classifies_codes() {
    let (mut driver, _log, responses) = canned_driver();
    responses.borrow_mut().push(Ok(vec![0x1C]));
    assert_eq!(driver.read_gesture_id(), Ok(GestureId::MoveLeft));
    responses.borrow_mut().push(Ok(vec![0x49]));
    assert_eq!(driver.read_gesture_id(), Ok(GestureId::ZoomOut));
    responses.borrow_mut().push(Ok(vec![0x77]));
    assert_eq!(driver.read_gesture_id(), Ok(GestureId::NoGesture));
}

#[test]
fn read_touch_count_takes_low_nibble() {
    let (mut driver, log, responses) = canned_driver();
    responses.borrow_mut().push(Ok(vec![0x83]));
    assert_eq!(driver.read_touch_count(), Ok(3));
    assert_eq!(log.borrow().as_slice(), &[Transaction::WriteRead(vec![0x02], 1)]);
}

#[test]
fn read_touch_x_reads_both_bytes_of_second_record() {
    let (mut driver, log, responses) = canned_driver();
    responses.borrow_mut().push(Ok(vec![0xF2, 0x34]));
    assert_eq!(driver.read_touch_x(1), Ok(0x234));
    assert_eq!(log.borrow().as_slice(), &[Transaction::WriteRead(vec![0x09], 2)]);
}

#[test]
fn read_touch_y_reads_both_bytes() {
    let (mut driver, log, responses) = canned_driver();
    responses.borrow_mut().push(Ok(vec![0x5A, 0xBC]));
    assert_eq!(driver.read_touch_y(0), Ok(0xABC));
    assert_eq!(log.borrow().as_slice(), &[Transaction::WriteRead(vec![0x05], 2)]);
}

#[test]
fn read_touch_event_takes_top_bits() {
    let (mut driver, log, responses) = canned_driver();
    responses.borrow_mut().push(Ok(vec![0x40]));
    assert_eq!(driver.read_touch_event(0), Ok(TouchEvent::LiftUp));
    assert_eq!(log.borrow().as_slice(), &[Transaction::WriteRead(vec![0x03], 1)]);
}

#[test]
fn read_touch_id_takes_high_nibble() {
    let (mut driver, log, responses) = canned_driver();
    responses.borrow_mut().push(Ok(vec![0x5A]));
    assert_eq!(driver.read_touch_id(1), Ok(5));
    assert_eq!(log.borrow().as_slice(), &[Transaction::WriteRead(vec![0x0B], 1)]);
}

#[test]
fn read_touch_weight_and_area() {
    let (mut driver, log, responses) = canned_driver();
    responses.borrow_mut().push(Ok(vec![0x2A]));
    assert_eq!(driver.read_touch_weight(0), Ok(0x2A));
    responses.borrow_mut().push(Ok(vec![0x9B]));
    assert_eq!(driver.read_touch_area(0), Ok(9));
    assert_eq!(
        log.borrow().as_slice(),
        &[
            Transaction::WriteRead(vec![0x07], 1),
            Transaction::WriteRead(vec![0x08], 1),
        ]
    );
}

#[test]
fn threshold_and_plain_registers_pass_through() {
    let (mut driver, log, responses) = canned_driver();
    responses.borrow_mut().push(Ok(vec![0x2B]));
    assert_eq!(driver.read_touch_threshold(), Ok(0x2B));
    assert_eq!(driver.write_touch_threshold(0x30), Ok(()));
    responses.borrow_mut().push(Ok(vec![0x05]));
    assert_eq!(driver.read_filter_coefficient(), Ok(0x05));
    assert_eq!(driver.write_filter_coefficient(0x06), Ok(()));
    assert_eq!(
        log.borrow().as_slice(),
        &[
            Transaction::WriteRead(vec![0x80], 1),
            Transaction::Write(vec![0x80, 0x30]),
            Transaction::WriteRead(vec![0x85], 1),
            Transaction::Write(vec![0x85, 0x06]),
        ]
    );
}

#[test]
fn rate_and_gesture_parameter_registers_pass_through() {
    let (mut driver, log, responses) = canned_driver();
    {
        let mut r = responses.borrow_mut();
        for b in [1u8, 2, 3, 4, 5, 6, 7, 8, 9, 10] {
            r.push(Ok(vec![b]));
        }
    }
    assert_eq!(driver.read_time_enter_monitor(), Ok(1));
    assert_eq!(driver.read_active_rate(), Ok(2));
    assert_eq!(driver.read_monitor_rate(), Ok(3));
    assert_eq!(driver.read_freq_hopping_en(), Ok(4));
    assert_eq!(driver.read_radian_value(), Ok(5));
    assert_eq!(driver.read_offset_left_right(), Ok(6));
    assert_eq!(driver.read_offset_up_down(), Ok(7));
    assert_eq!(driver.read_distance_left_right(), Ok(8));
    assert_eq!(driver.read_distance_up_down(), Ok(9));
    assert_eq!(driver.read_distance_zoom(), Ok(10));
    assert_eq!(driver.write_time_enter_monitor(0x0A), Ok(()));
    assert_eq!(driver.write_active_rate(0x0B), Ok(()));
    assert_eq!(driver.write_monitor_rate(0x0C), Ok(()));
    assert_eq!(driver.write_freq_hopping_en(0x01), Ok(()));
    assert_eq!(driver.write_radian_value(0x0D), Ok(()));
    assert_eq!(driver.write_offset_left_right(0x0E), Ok(()));
    assert_eq!(driver.write_offset_up_down(0x0F), Ok(()));
    assert_eq!(driver.write_distance_left_right(0x10), Ok(()));
    assert_eq!(driver.write_distance_up_down(0x11), Ok(()));
    assert_eq!(driver.write_distance_zoom(0x12), Ok(()));
    let expected_reads: Vec<Transaction> = [0x87u8, 0x88, 0x89, 0x8B, 0x91, 0x92, 0x93, 0x94, 0x95, 0x96]
        .iter()
        .map(|a| Transaction::WriteRead(vec![*a], 1))
        .collect();
    let expected_writes = vec![
        Transaction::Write(vec![0x87, 0x0A]),
        Transaction::Write(vec![0x88, 0x0B]),
        Transaction::Write(vec![0x89, 0x0C]),
        Transaction::Write(vec![0x8B, 0x01]),
        Transaction::Write(vec![0x91, 0x0D]),
        Transaction::Write(vec![0x92, 0x0E]),
        Transaction::Write(vec![0x93, 0x0F]),
        Transaction::Write(vec![0x94, 0x10]),
        Transaction::Write(vec![0x95, 0x11]),
        Transaction::Write(vec![0x96, 0x12]),
    ];
    let mut expected = expected_reads;
    expected.extend(expected_writes);
    assert_eq!(log.borrow().as_slice(), expected.as_slice());
}

#[test]
fn ctrl_mode_round_trip() {
    let (mut driver, log, responses) = canned_driver();
    responses.borrow_mut().push(Ok(vec![0x00]));
    assert_eq!(driver.read_ctrl_mode(), Ok(CtrlMode::KeepActive));
    responses.borrow_mut().push(Ok(vec![0x01]));
    assert_eq!(driver.read_ctrl_mode(), Ok(CtrlMode::SwitchToMonitor));
    assert_eq!(driver.write_ctrl_mode(CtrlMode::SwitchToMonitor), Ok(()));
    assert_eq!(
        log.borrow().last(),
        Some(&Transaction::Write(vec![0x86, 0x01]))
    );
}

#[test]
fn identification_registers_pass_through() {
    let (mut driver, log, responses) = canned_driver();
    {
        let mut r = responses.borrow_mut();
        r.push(Ok(vec![0x26]));
        r.push(Ok(vec![0x01]));
        r.push(Ok(vec![0x10, 0x2C]));
        r.push(Ok(vec![0x64]));
        r.push(Ok(vec![0x05]));
        r.push(Ok(vec![0x11]));
        r.push(Ok(vec![0xAF]));
    }
    assert_eq!(driver.read_cipher_mid(), Ok(0x26));
    assert_eq!(driver.read_cipher_low(), Ok(0x01));
    assert_eq!(driver.read_library_version(), Ok(0x102C));
    assert_eq!(driver.read_chip_id(), Ok(0x64));
    assert_eq!(driver.read_firmware_id(), Ok(0x05));
    assert_eq!(driver.read_focaltech_id(), Ok(0x11));
    assert_eq!(driver.read_release_code_id(), Ok(0xAF));
    assert_eq!(
        log.borrow().as_slice(),
        &[
            Transaction::WriteRead(vec![0x9F], 1),
            Transaction::WriteRead(vec![0xA0], 1),
            Transaction::WriteRead(vec![0xA1], 2),
            Transaction::WriteRead(vec![0xA3], 1),
            Transaction::WriteRead(vec![0xA6], 1),
            Transaction::WriteRead(vec![0xA8], 1),
            Transaction::WriteRead(vec![0xAF], 1),
        ]
    );
}

#[test]
fn mode_registers_round_trip() {
    let (mut driver, log, responses) = canned_driver();
    responses.borrow_mut().push(Ok(vec![0x00]));
    assert_eq!(driver.read_g_mode(), Ok(GestureMode::Disabled));
    assert_eq!(driver.write_g_mode(GestureMode::Enabled), Ok(()));
    responses.borrow_mut().push(Ok(vec![0x03]));
    assert_eq!(driver.read_power_mode(), Ok(PowerModeEnum::Hibernate));
    assert_eq!(driver.write_power_mode(PowerModeEnum::Monitor), Ok(()));
    responses.borrow_mut().push(Ok(vec![0x01]));
    assert_eq!(driver.read_face_dec_mode(), Ok(0x01));
    assert_eq!(driver.write_face_dec_mode(0x00), Ok(()));
    responses.borrow_mut().push(Ok(vec![0x01]));
    assert_eq!(driver.read_state(), Ok(0x01));
    assert_eq!(driver.write_state(0x02), Ok(()));
    assert_eq!(
        log.borrow().as_slice(),
        &[
            Transaction::WriteRead(vec![0xA4], 1),
            Transaction::Write(vec![0xA4, 0x01]),
            Transaction::WriteRead(vec![0xA5], 1),
            Transaction::Write(vec![0xA5, 0x01]),
            Transaction::WriteRead(vec![0xB0], 1),
            Transaction::Write(vec![0xB0, 0x00]),
            Transaction::WriteRead(vec![0xBC], 1),
            Transaction::Write(vec![0xBC, 0x02]),
        ]
    );
}

#[test]
fn accessor_bus_faults_surface_unmodified() {
    let (mut driver, _log, responses) = canned_driver();
    responses.borrow_mut().push(Err(0x55));
    assert_eq!(driver.read_touch_threshold(), Err(Ft6336uError::I2c(0x55)));
    responses.borrow_mut().push(Err(0x56));
    assert_eq!(driver.read_device_mode(), Err(Ft6336uError::I2c(0x56)));
}

#[test]
fn new_driver_starts_all_released() {
    let (mut driver, _log, responses) = canned_driver();
    responses.borrow_mut().push(Ok(block(0x00, [0; 6], [0; 6])));
    let report = driver.scan().expect("scan");
    assert_eq!(report.touch_count, 0);
    for p in report.points.iter() {
        assert_eq!(p.status, TouchStatus::Release);
        assert_eq!(p.x, 0);
        assert_eq!(p.y, 0);
    }
}
