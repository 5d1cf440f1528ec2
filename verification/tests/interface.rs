//! Tests for the register interface and its bounded scratch buffer.

use std::cell::RefCell;
use std::rc::Rc;

use ft6336u::BusTransport;
use ft6336u::CurrentFt6336uDriverInterface;
use ft6336u::Ft6336uError;
use ft6336u::Ft6336uInterface;
use ft6336u::MAX_WRITE_PAYLOAD;

#[derive(Debug, Clone, PartialEq, Eq)]
enum Transaction {
    WriteRead(Vec<u8>, usize),
    Write(Vec<u8>),
}

struct RecordingBus {
    log: Rc<RefCell<Vec<Transaction>>>,
    read_responses: Rc<RefCell<Vec<Result<Vec<u8>, u8>>>>,
}

impl RecordingBus {
    fn new() -> (Self, Rc<RefCell<Vec<Transaction>>>, Rc<RefCell<Vec<Result<Vec<u8>, u8>>>>) {
        let log = Rc::new(RefCell::new(Vec::new()));
        let responses = Rc::new(RefCell::new(Vec::new()));
        (
            Self { log: log.clone(), read_responses: responses.clone() },
            log,
            responses,
        )
    }
}

impl BusTransport for RecordingBus {
    type BusError = u8;

    fn transact_write_read(&mut self, out: &[u8], len: usize) -> Result<Vec<u8>, u8> {
        self.log.borrow_mut().push(Transaction::WriteRead(out.to_vec(), len));
        let r = self.read_responses.borrow_mut().remove(0);
        if let Ok(data) = &r {
            assert_eq!(data.len(), len, "canned response must match the requested length");
        }
        r
    }

    fn transact_write(&mut self, out: &[u8]) -> Result<(), u8> {
        self.log.borrow_mut().push(Transaction::Write(out.to_vec()));
        Ok(())
    }
}

#[test]
fn oversized_payload_fails_without_bus_activity() {
    let (bus, log, _responses) = RecordingBus::new();
    let mut interface = Ft6336uInterface::new(bus);
    let payload = [1u8, 2, 3, 4, 5];
    assert!(payload.len() > MAX_WRITE_PAYLOAD);
    let r = interface.write_register(0x80, &payload);
    assert_eq!(r, Err(Ft6336uError::PayloadTooLarge));
    assert!(log.borrow().is_empty(), "the bus must not be touched");
}

#[test]
fn write_sends_address_then_payload_in_one_transaction() {
    let (bus, log, _responses) = RecordingBus::new();
    let mut interface = Ft6336uInterface::new(bus);
    let r = interface.write_register(0x86, &[0xAA, 0xBB]);
    assert_eq!(r, Ok(()));
    assert_eq!(log.borrow().as_slice(), &[Transaction::Write(vec![0x86, 0xAA, 0xBB])]);
}

#[test]
fn largest_allowed_payload_is_accepted() {
    let (bus, log, _responses) = RecordingBus::new();
    let mut interface = Ft6336uInterface::new(bus);
    let r = interface.write_register(0x90, &[1, 2, 3, 4]);
    assert_eq!(r, Ok(()));
    assert_eq!(log.borrow().as_slice(), &[Transaction::Write(vec![0x90, 1, 2, 3, 4])]);
}

#[test]
fn read_is_one_write_then_read_transaction() {
    let (bus, log, responses) = RecordingBus::new();
    responses.borrow_mut().push(Ok(vec![0x12, 0x34]));
    let mut interface = Ft6336uInterface::new(bus);
    let r = interface.read_register(0xA1, 2);
    assert_eq!(r, Ok(vec![0x12, 0x34]));
    assert_eq!(log.borrow().as_slice(), &[Transaction::WriteRead(vec![0xA1], 2)]);
}

#[test]
fn read_wraps_transport_faults_unmodified() {
    let (bus, _log, responses) = RecordingBus::new();
    responses.borrow_mut().push(Err(0x42));
    let mut interface = Ft6336uInterface::new(bus);
    let r = interface.read_register(0x00, 1);
    assert_eq!(r, Err(Ft6336uError::I2c(0x42)));
}
