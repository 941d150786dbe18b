//! The two-wire bus capability that the driver consumes.
//!
//! The device sits at a single fixed bus address, so the capability is
//! reduced to two operations: write a few bytes, or write a one-byte
//! register address and read a few bytes back.  Each implementation
//! carries an abstract history of the transactions it has performed;
//! every driver contract is stated over that history.

use vstd::prelude::*;

verus! {

/// One transaction on the two-wire bus, as recorded in the abstract
/// history of an [`I2cBus`].
pub enum BusTransaction {
    /// A plain write of `data` to the device.  The first byte is the
    /// register address, the following bytes are the values written.
    Write { data: Seq<u8> },
    /// A write of the one-byte register address `reg` followed by a
    /// read of `data` from the device.
    WriteRead { reg: u8, data: Seq<u8> },
}

/// The transaction that writes `value` to the register at address
/// `reg`.
pub open spec fn write_transaction(reg: u8, value: u8) -> BusTransaction {
    BusTransaction::Write { data: seq![reg, value] }
}

/// The transaction that reads the single byte `value` back from the
/// register at address `reg`.
pub open spec fn read_transaction(reg: u8, value: u8) -> BusTransaction {
    BusTransaction::WriteRead { reg, data: seq![value] }
}

/// Exclusive access to the two-wire bus on which the device sits, at
/// the device's fixed bus address.
///
/// An implementation reports every transaction it performs in its
/// abstract `history`, newest last.  A transaction that fails reports
/// the transport's own error; nothing is recorded or promised for it.
/// The driver never retries: a failed transaction is propagated to the
/// caller at once.
pub trait I2cBus: Sized {
    /// The transport's own error kind.
    type BusError;

    /// The transactions performed so far, oldest first.
    spec fn history(&self) -> Seq<BusTransaction>;

    /// Write `bytes` to the device: the register address followed by
    /// the values to store there.
    fn write(&mut self, bytes: &[u8]) -> (r: Result<(), Self::BusError>)
        requires
            bytes@.len() >= 1,
        ensures
            r is Ok ==> final(self).history() == old(self).history().push(
                BusTransaction::Write { data: bytes@ },
            ),
    ;

    /// Write the one-byte register address `reg` to the device, then
    /// read `n` bytes back.
    fn write_read(&mut self, reg: u8, n: usize) -> (r: Result<Vec<u8>, Self::BusError>)
        requires
            1 <= n <= 4,
        ensures
            r matches Ok(data) ==> {
                &&& data@.len() == n
                &&& final(self).history() == old(self).history().push(
                    BusTransaction::WriteRead { reg, data: data@ },
                )
            },
    ;
}

} // verus!
