use vstd::prelude::*;

verus! {

/// One transaction as seen on the two-wire bus: either a plain addressed
/// write, or a combined addressed write followed by a one-byte read, with
/// the byte the device answered.
pub enum Transaction {
    Write { addr: u8, data: Seq<u8> },
    WriteRead { addr: u8, data: Seq<u8>, response: u8 },
}

/// The transaction that writes `data` to the device at 7-bit address `addr`.
pub open spec fn write_txn(addr: u8, data: Seq<u8>) -> Transaction {
    Transaction::Write { addr, data }
}

/// The transaction that writes `data` to the device at 7-bit address `addr`,
/// then reads back the byte `response`.
pub open spec fn write_read_txn(addr: u8, data: Seq<u8>, response: u8) -> Transaction {
    Transaction::WriteRead { addr, data, response }
}

/// The bus capability the driver consumes: an addressed write and an
/// addressed write-then-read, each reporting failure through the
/// transport's own error type.
///
/// `history()` is the transport's model: the transactions issued on the bus
/// so far, oldest first. Each method appends exactly one transaction,
/// whether it succeeds or fails — the driver layered on top never retries
/// and never issues more than one transaction per call.
pub trait I2cBus: Sized {
    /// The transport's own error type, surfaced to the driver's caller
    /// unmodified.
    type Error;

    /// The transactions issued on this bus so far, oldest first.
    spec fn history(&self) -> Seq<Transaction>;

    /// Write `data` to the device at 7-bit address `addr`.
    fn write(&mut self, addr: u8, data: &[u8]) -> (r: Result<(), Self::Error>)
        ensures
            final(self).history() == old(self).history().push(write_txn(addr, data@)),
    ;

    /// Write `data` to the device at 7-bit address `addr`, then read one
    /// byte back. On success the byte returned is the byte read.
    fn write_read(&mut self, addr: u8, data: &[u8]) -> (r: Result<u8, Self::Error>)
        ensures
            exists|b: u8|
                final(self).history() == old(self).history().push(
                    write_read_txn(addr, data@, b),
                ),
            r matches Ok(b) ==> final(self).history() == old(self).history().push(
                write_read_txn(addr, data@, b),
            ),
    ;
}

} // verus!
