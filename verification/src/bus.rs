//! The bus transport capability and the ghost model of bus traffic.

use vstd::prelude::*;

use crate::bits::update_bit;
use crate::registers::{register_address, Register};

verus! {

/// One completed bus transaction, as the driver's contracts model it.
#[verifier::ext_equal]
pub enum Transaction {
    /// A plain write: `data` transmitted to the device at `addr`.
    Write {
        /// The 7-bit device address the frame was sent to.
        addr: u8,
        /// The bytes of the frame, command byte first.
        data: Seq<u8>,
    },
    /// A combined write-then-read with a repeated start: `data` transmitted,
    /// then `response` read back without releasing the bus.
    WriteRead {
        /// The 7-bit device address of the transaction.
        addr: u8,
        /// The bytes written before the repeated start.
        data: Seq<u8>,
        /// The bytes the device returned.
        response: Seq<u8>,
    },
}

/// The byte-oriented bus transport that the driver consumes.
///
/// This is the capability the caller supplies, with the two primitives the
/// device needs: a plain write and a combined write-then-read. The ghost
/// `history` is the sequence of transactions the handle has completed so
/// far; the method contracts are obligations on every implementation, and
/// everything the driver proves about its wire traffic rests on them.
///
/// Errors are opaque values from the transport's own error domain; a failed
/// call records no transaction.
pub trait I2cBus {
    /// The transport's own opaque error type.
    type BusError;

    /// The transactions this handle has completed, oldest first.
    spec fn history(&self) -> Seq<Transaction>;

    /// Transmit `bytes` to the device at `address` in one transaction.
    ///
    /// On success exactly that write is appended to the history; on failure
    /// nothing is appended and the error is the transport's own.
    fn write(&mut self, address: u8, bytes: &[u8]) -> (r: Result<(), Self::BusError>)
        ensures
            r is Ok ==> final(self).history() == old(self).history().push(
                Transaction::Write { addr: address, data: bytes@ },
            ),
            r is Err ==> final(self).history() == old(self).history(),
    ;

    /// Transmit `bytes`, then read exactly `buffer.len()` bytes in the same
    /// transaction via a repeated start, filling `buffer`.
    ///
    /// On success exactly that write-then-read is appended to the history;
    /// on failure nothing is appended. Either way the buffer keeps its
    /// length.
    fn write_read(
        &mut self,
        address: u8,
        bytes: &[u8],
        buffer: &mut [u8],
    ) -> (r: Result<(), Self::BusError>)
        ensures
            final(buffer)@.len() == old(buffer)@.len(),
            r is Ok ==> final(self).history() == old(self).history().push(
                Transaction::WriteRead { addr: address, data: bytes@, response: final(buffer)@ },
            ),
            r is Err ==> final(self).history() == old(self).history(),
    ;
}

/// The command byte that selects `register` with the auto-increment flag
/// (bit 7) engaged.
pub open spec fn ai_command(register: Register) -> u8 {
    register_address(register) | 0x80
}

/// The transaction of a single-register write: the 2-byte frame
/// `[address, value]`, auto-increment clear.
pub open spec fn write_transaction(device: u8, register: Register, value: u8) -> Transaction {
    Transaction::Write { addr: device, data: seq![register_address(register), value] }
}

/// The transaction of a single-register read: `[address]` written, one byte
/// read back via a repeated start.
pub open spec fn read_transaction(device: u8, register: Register, value: u8) -> Transaction {
    Transaction::WriteRead {
        addr: device,
        data: seq![register_address(register)],
        response: seq![value],
    }
}

/// The payload a batch write actually transmits: at most the first three
/// values, since no register kind spans more than three consecutive
/// registers. Longer slices are truncated silently.
pub open spec fn batch_payload(values: Seq<u8>) -> Seq<u8> {
    if values.len() <= 3 {
        values
    } else {
        values.subrange(0, 3)
    }
}

/// The transaction of an auto-increment batch write starting at `start`.
pub open spec fn batch_write_transaction(device: u8, start: Register, values: Seq<u8>) -> Transaction {
    Transaction::Write { addr: device, data: seq![ai_command(start)] + batch_payload(values) }
}

/// The transaction of an auto-increment batch read starting at `start`.
pub open spec fn batch_read_transaction(device: u8, start: Register, response: Seq<u8>) -> Transaction {
    Transaction::WriteRead { addr: device, data: seq![ai_command(start)], response }
}

/// The two transactions of a read-modify-write of one register: the read
/// that returned `read_byte`, then the write of `written_byte`.
pub open spec fn rmw_transactions(
    device: u8,
    register: Register,
    read_byte: u8,
    written_byte: u8,
) -> Seq<Transaction> {
    seq![
        read_transaction(device, register, read_byte),
        write_transaction(device, register, written_byte),
    ]
}

/// Whether the step from history `before` to history `after` is exactly one
/// single-register read of `register`, whatever byte came back.
pub open spec fn is_read_step(
    before: Seq<Transaction>,
    after: Seq<Transaction>,
    device: u8,
    register: Register,
) -> bool {
    exists|v: u8| after == before.push(#[trigger] read_transaction(device, register, v))
}

/// Whether the step from history `before` to history `after` is exactly the
/// read-modify-write of `register` that forces bit `bit` to `b`: one read,
/// then one write of the byte read with only that bit forced.
pub open spec fn is_rmw_step(
    before: Seq<Transaction>,
    after: Seq<Transaction>,
    device: u8,
    register: Register,
    bit: u8,
    b: bool,
) -> bool {
    exists|v: u8|
        after == before + #[trigger] rmw_transactions(device, register, v, update_bit(v, bit, b))
}

} // verus!
