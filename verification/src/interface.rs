//! Register access over a caller-supplied bus transport.
//!
//! [`BusTransport`] is the raw capability the caller injects: one
//! write-then-read or write-only transaction against the fixed device
//! address. [`Ft6336uInterface`] wraps it with address+length semantics
//! and enforces the bounded write scratch buffer. Retries and timeouts
//! are the transport's responsibility, not the driver's.
//!
//! What goes over the wire is modelled by a ghost transaction history:
//! each trait carries a `history` spec function, and every successful
//! call appends exactly the transaction it performed, so contracts up
//! the stack can name the register, the bytes written, and the bytes
//! handed back.

use vstd::prelude::*;

use crate::Ft6336uError;

verus! {

/// Largest write payload the interface accepts: the scratch buffer
/// holds the register address plus this many data bytes.
pub const MAX_WRITE_PAYLOAD: usize = 4;

/// One raw bus transaction, as the contracts model the wire.
pub enum BusTransaction {
    /// One atomic write-then-read: `out` written, `data` read back,
    /// with no independent transaction in between.
    WriteRead { out: Seq<u8>, data: Seq<u8> },
    /// One write-only transaction carrying exactly `out`.
    Write { out: Seq<u8> },
}

/// The register-level shape of one read: one write-then-read transaction
/// that writes the single address byte and reads `data` back unmodified.
pub open spec fn spec_reg_read(
    old_history: Seq<BusTransaction>,
    new_history: Seq<BusTransaction>,
    address: u8,
    data: Seq<u8>,
) -> bool {
    new_history == old_history.push(BusTransaction::WriteRead { out: seq![address], data })
}

/// The register-level shape of one write: one write-only transaction
/// carrying the address byte followed by exactly the payload.
pub open spec fn spec_reg_write(
    old_history: Seq<BusTransaction>,
    new_history: Seq<BusTransaction>,
    address: u8,
    payload: Seq<u8>,
) -> bool {
    new_history == old_history.push(BusTransaction::Write { out: seq![address] + payload })
}

/// The shape of one read-modify-write: one read of `address` returning
/// `data`, then one write of `payload` to the same register, and
/// nothing else.
pub open spec fn spec_reg_rmw(
    old_history: Seq<BusTransaction>,
    new_history: Seq<BusTransaction>,
    address: u8,
    data: Seq<u8>,
    payload: Seq<u8>,
) -> bool {
    new_history == old_history.push(BusTransaction::WriteRead { out: seq![address], data }).push(
        BusTransaction::Write { out: seq![address] + payload },
    )
}

/// The raw bus capability, implemented by the caller over their bus
/// handle. Each method issues exactly one transaction to the fixed
/// device address and returns the transport's native fault on failure.
pub trait BusTransport {
    /// The transport's native fault type (NACK, arbitration loss,
    /// timeout, and the like).
    type BusError;

    /// The transactions this transport has performed, oldest first.
    /// The default says nothing, so an implementation built outside the
    /// verifier need not define it; the contracts below constrain every
    /// implementation through it all the same.
    open spec fn history(&self) -> Seq<BusTransaction> {
        arbitrary()
    }

    /// One atomic write-then-read transaction: write `out`, then read
    /// exactly `len` bytes, with no independent transaction in between.
    /// On success the transaction performed — `out` written, the
    /// returned bytes read — is appended to the history.
    fn transact_write_read(&mut self, out: &[u8], len: usize) -> (r: Result<
        Vec<u8>,
        Self::BusError,
    >)
        ensures
            (r matches Ok(data) ==> data@.len() == len && final(self).history() == old(
                self,
            ).history().push(BusTransaction::WriteRead { out: out@, data: data@ })),
    ;

    /// One write-only transaction carrying exactly the bytes of `out`,
    /// appended to the history on success.
    fn transact_write(&mut self, out: &[u8]) -> (r: Result<(), Self::BusError>)
        ensures
            (r matches Ok(u) ==> final(self).history() == old(self).history().push(
                BusTransaction::Write { out: out@ },
            )),
    ;
}

/// Register-level access: address+length reads and bounded writes over
/// a [`BusTransport`]. Implemented by [`Ft6336uInterface`]; the driver
/// is generic over this trait.
pub trait CurrentFt6336uDriverInterface: Sized {
    /// The fault type of the underlying transport.
    type BusError;

    /// The raw transactions this interface has driven, oldest first.
    /// The default says nothing, so an implementation built outside the
    /// verifier need not define it; [`Ft6336uInterface`] defines it as
    /// its transport's history.
    open spec fn history(&self) -> Seq<BusTransaction> {
        arbitrary()
    }

    /// Read `len` bytes starting at `address`. On success this was one
    /// write-then-read transaction writing exactly the address byte, and
    /// the bytes the transport read come back unmodified; every failure
    /// wraps a transport fault.
    fn read_register(&mut self, address: u8, len: usize) -> (r: Result<
        Vec<u8>,
        Ft6336uError<Self::BusError>,
    >)
        ensures
            (r matches Ok(data) ==> data@.len() == len && spec_reg_read(
                old(self).history(),
                final(self).history(),
                address,
                data@,
            )),
            (r matches Err(e) ==> e is I2c),
    ;

    /// Write `data` to `address`. A payload larger than
    /// [`MAX_WRITE_PAYLOAD`] is refused before any bus activity, leaving
    /// the interface untouched. On success this was one transaction
    /// carrying exactly the address byte followed by the payload;
    /// every other failure wraps a transport fault.
    fn write_register(&mut self, address: u8, data: &[u8]) -> (r: Result<
        (),
        Ft6336uError<Self::BusError>,
    >)
        ensures
            data@.len() > MAX_WRITE_PAYLOAD ==> (r matches Err(e) && e is PayloadTooLarge)
                && *final(self) == *old(self),
            data@.len() <= MAX_WRITE_PAYLOAD ==> (r matches Err(e) ==> e is I2c),
            (r matches Ok(u) ==> spec_reg_write(
                old(self).history(),
                final(self).history(),
                address,
                data@,
            )),
    ;
}

/// The interface the library provides over a caller-supplied transport.
pub struct Ft6336uInterface<I2CBus> {
    i2c_bus: I2CBus,
}

impl<I2CBus> Ft6336uInterface<I2CBus> {
    /// Wrap a bus transport.
    pub fn new(i2c_bus: I2CBus) -> Self {
        Self { i2c_bus }
    }
}

impl<I2CBus: BusTransport> CurrentFt6336uDriverInterface for Ft6336uInterface<I2CBus> {
    type BusError = I2CBus::BusError;

    /// The interface drives the transport directly, one transaction per
    /// call, so its history is the transport's.
    closed spec fn history(&self) -> Seq<BusTransaction> {
        self.i2c_bus.history()
    }

    fn read_register(&mut self, address: u8, len: usize) -> (r: Result<
        Vec<u8>,
        Ft6336uError<I2CBus::BusError>,
    >) {
        let mut addressing: Vec<u8> = Vec::new();
        addressing.push(address);
        proof {
            assert(addressing@ =~= seq![address]);
        }
        match self.i2c_bus.transact_write_read(addressing.as_slice(), len) {
            Ok(data) => Ok(data),
            Err(e) => Err(Ft6336uError::I2c(e)),
        }
    }

    fn write_register(&mut self, address: u8, data: &[u8]) -> (r: Result<
        (),
        Ft6336uError<I2CBus::BusError>,
    >) {
        if data.len() > MAX_WRITE_PAYLOAD {
            return Err(Ft6336uError::PayloadTooLarge);
        }
        // Assemble the transaction in the scratch buffer: the register
        // address followed by the payload, at most 1 + 4 bytes.
        let mut scratch: Vec<u8> = Vec::new();
        scratch.push(address);
        let mut i: usize = 0;
        while i < data.len()
            invariant
                i <= data@.len(),
                data@.len() <= MAX_WRITE_PAYLOAD,
                scratch@ == seq![address] + data@.take(i as int),
            decreases data@.len() - i,
        {
            let b = *vstd::slice::slice_index_get(data, i);
            scratch.push(b);
            proof {
                assert(seq![address] + data@.take(i + 1) =~= (seq![address] + data@.take(
                    i as int,
                )).push(data@[i as int]));
            }
            i += 1;
        }
        proof {
            assert(data@.take(data@.len() as int) =~= data@);
        }
        match self.i2c_bus.transact_write(scratch.as_slice()) {
            Ok(()) => Ok(()),
            Err(e) => Err(Ft6336uError::I2c(e)),
        }
    }
}

} // verus!
