//! The bus the driver talks over, and the ghost record of what was said.
//!
//! The driver needs two things of a bus: write some bytes to a device, and
//! write a register address and read one byte back. Nothing is assumed of
//! how a transport answers. Instead every handle records each transaction
//! it issues, together with the answer, in a ghost trace; the contracts of
//! the driver are statements about that trace.

use vstd::prelude::*;
use crate::registers::Register;

verus! {

/// The bus address of the chip. All chips of the family share it, so a write
/// reaches every chip on the bus at once.
pub const ADDRESS: u8 = 0x5a;

/// A blocking bus that can reach the chip. Each call is one attempt at one
/// transaction; the driver never retries.
pub trait Transport {
    /// What the bus reports when a transaction fails.
    type Error;

    /// Sends `bytes` to the device at `address` in one transaction.
    fn write(&mut self, address: u8, bytes: &[u8]) -> Result<(), Self::Error>;

    /// Sends `register` to the device at `address` and reads one byte back,
    /// in one transaction.
    fn read(&mut self, address: u8, register: u8) -> Result<u8, Self::Error>;
}

/// What the driver asks of the bus in one transaction.
pub enum Request {
    /// Send these bytes: a register address, then the values for that
    /// register and the ones after it.
    Write { address: u8, bytes: Seq<u8> },
    /// Read the byte held by this register.
    Read { address: u8, register: u8 },
}

/// How the bus answered.
pub enum Reply {
    /// The transaction failed.
    Failed,
    /// The bytes were written.
    Written,
    /// The byte that was read.
    Byte(u8),
}

/// One transaction as it happened.
pub struct Exchange {
    pub request: Request,
    pub reply: Reply,
}

impl Exchange {
    /// Whether the transaction went through.
    pub open spec fn ok(self) -> bool {
        !(self.reply is Failed)
    }

    /// The byte that was read; 0 where none was.
    pub open spec fn byte(self) -> u8 {
        match self.reply {
            Reply::Byte(b) => b,
            _ => 0,
        }
    }

    /// The value a two-byte write puts into its register; 0 for any other
    /// transaction.
    pub open spec fn written(self) -> u8 {
        match self.request {
            Request::Write { bytes, .. } => if bytes.len() == 2 {
                bytes[1]
            } else {
                0
            },
            Request::Read { .. } => 0,
        }
    }

    /// A write is answered by `Written` or `Failed`, a read by a byte or
    /// `Failed`.
    pub open spec fn well_formed(self) -> bool {
        match self.request {
            Request::Write { .. } => self.reply is Written || self.reply is Failed,
            Request::Read { .. } => self.reply is Byte || self.reply is Failed,
        }
    }
}

/// The request to read `register` of the chip.
pub open spec fn read_of(register: Register) -> Request {
    Request::Read { address: ADDRESS, register: register.addr_of() }
}

/// The request to write `value` into `register` of the chip.
pub open spec fn write_to(register: Register, value: u8) -> Request {
    Request::Write { address: ADDRESS, bytes: seq![register.addr_of(), value] }
}

/// The request to write `values` into `register` and the registers after
/// it, one byte each, in a single transaction.
pub open spec fn write_block(register: Register, values: Seq<u8>) -> Request {
    Request::Write { address: ADDRESS, bytes: seq![register.addr_of()] + values }
}

/// The byte read in transaction `i` of `run`.
pub open spec fn byte_at(run: Seq<Exchange>, i: int) -> u8 {
    run[i].byte()
}

} // verus!
