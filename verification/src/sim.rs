//! An in-memory bus backed by a byte-addressed register file, for
//! host-side testing of the driver without hardware.
//!
//! The simulated device stores one byte per address, auto-increments
//! the address inside a multi-byte transaction as the chip does, counts
//! the transactions it performs, and can be told to fail every
//! transaction to exercise transport error paths.

use crate::bus::BusTransaction;
use crate::bus::I2cBus;
use vstd::prelude::*;

verus! {

/// The transport error of the simulated bus.
#[derive(Clone, Copy, Debug, PartialEq, Eq, Structural)]
pub struct SimBusError;

/// A simulated bus with a 256-byte register file behind it.
pub struct SimBus {
    regs: Vec<u8>,
    count: usize,
    fail: bool,
    log: Ghost<Seq<BusTransaction>>,
}

impl SimBus {
    /// A fresh simulated bus: every register byte zero, no
    /// transactions performed.
    pub fn new() -> (r: Self)
        ensures
            r.history() == Seq::<BusTransaction>::empty(),
    {
        let mut regs: Vec<u8> = Vec::new();
        let mut i: usize = 0;
        while i < 256
            invariant
                regs@.len() == i,
                i <= 256,
            decreases 256 - i,
        {
            regs.push(0);
            i += 1;
        }
        SimBus { regs, count: 0, fail: false, log: Ghost(Seq::empty()) }
    }

    /// The byte currently held at register address `addr`.
    pub fn register_value(&self, addr: u8) -> u8 {
        let idx = addr as usize;
        if idx < self.regs.len() {
            self.regs[idx]
        } else {
            0
        }
    }

    /// Store `value` at register address `addr` directly, without a
    /// bus transaction, as if the device itself had produced it.
    pub fn set_register_value(&mut self, addr: u8, value: u8)
        ensures
            final(self).history() == old(self).history(),
    {
        let idx = addr as usize;
        if idx < self.regs.len() {
            self.regs[idx] = value;
        }
    }

    /// Whether every following transaction should fail.
    pub fn set_fail(&mut self, fail: bool)
        ensures
            final(self).history() == old(self).history(),
    {
        self.fail = fail;
    }

    /// How many transactions have been performed.
    pub fn transaction_count(&self) -> usize {
        self.count
    }
}

impl I2cBus for SimBus {
    type BusError = SimBusError;

    closed spec fn history(&self) -> Seq<BusTransaction> {
        self.log@
    }

    fn write(&mut self, bytes: &[u8]) -> (r: Result<(), SimBusError>) {
        if self.fail {
            return Err(SimBusError);
        }
        let base = bytes[0] as usize;
        let mut i: usize = 1;
        while i < bytes.len()
            invariant
                1 <= i,
                base < 256,
                self.log == old(self).log,
            decreases bytes@.len() - i,
        {
            let off = (i - 1) % 256;
            let idx = (base + off) % 256;
            if idx < self.regs.len() {
                self.regs[idx] = bytes[i];
            }
            i += 1;
        }
        self.count = self.count.wrapping_add(1);
        self.log = Ghost(self.log@.push(BusTransaction::Write { data: bytes@ }));
        Ok(())
    }

    fn write_read(&mut self, reg: u8, n: usize) -> (r: Result<Vec<u8>, SimBusError>) {
        if self.fail {
            return Err(SimBusError);
        }
        let base = reg as usize;
        let mut data: Vec<u8> = Vec::new();
        let mut i: usize = 0;
        while i < n
            invariant
                data@.len() == i,
                i <= n,
                base < 256,
                n <= 4,
                self.log == old(self).log,
            decreases n - i,
        {
            let idx = (base + i) % 256;
            let v = if idx < self.regs.len() {
                self.regs[idx]
            } else {
                0
            };
            data.push(v);
            i += 1;
        }
        self.count = self.count.wrapping_add(1);
        self.log = Ghost(self.log@.push(BusTransaction::WriteRead { reg, data: data@ }));
        Ok(data)
    }
}

} // verus!
