//! Register framing for devices addressed by a 16-bit, big-endian register
//! number, and the outcome of one bus transfer.
use vstd::prelude::*;

verus! {

/// Relies on embedded_hal::i2c::ErrorKind, the bus-independent kind of an
/// I2C error: carried through unchanged, never inspected.
#[verifier::external_type_specification]
#[verifier::external_body]
pub struct ExErrorKind(embedded_hal::i2c::ErrorKind);

/// A failed bus transfer. The driver never retries it.
#[derive(Clone, Copy, Debug, PartialEq, Eq)]
pub enum TransportError {
    /// The bus reported an error of this kind (NACK, arbitration loss,
    /// overrun, ...).
    Bus(embedded_hal::i2c::ErrorKind),
    /// A read completed without delivering its byte.
    Missing,
}

/// One blocking bus transaction addressed to a 7-bit device address.
#[derive(Clone, Debug, PartialEq, Eq)]
pub enum Transfer {
    /// Write `bytes` to the device.
    Write { address: u8, bytes: Vec<u8> },
    /// Write `bytes` to the device, then read one byte back in the same
    /// combined transaction.
    WriteRead { address: u8, bytes: Vec<u8> },
}

/// What the bus reported for the last transfer.
#[derive(Clone, Copy, Debug, PartialEq, Eq)]
pub enum BusReply {
    /// A write completed.
    Written,
    /// A combined write/read completed with this byte.
    Read(u8),
    /// The transport failed.
    Failed(TransportError),
}

/// High byte of a 16-bit register number.
pub open spec fn hi(reg: u16) -> u8 {
    (reg / 256) as u8
}

/// Low byte of a 16-bit register number.
pub open spec fn lo(reg: u16) -> u8 {
    (reg % 256) as u8
}

/// The wire image of a register write: high address byte, low address byte,
/// payload.
pub open spec fn write_image(reg: u16, value: u8) -> Seq<u8> {
    seq![hi(reg), lo(reg), value]
}

/// The address phase of a register read: high address byte, low address byte.
pub open spec fn read_image(reg: u16) -> Seq<u8> {
    seq![hi(reg), lo(reg)]
}

impl Transfer {
    /// The transfer as plain values: its address, whether it reads, and the
    /// bytes it writes.
    pub open spec fn view(&self) -> (u8, bool, Seq<u8>) {
        match self {
            Transfer::Write { address, bytes } => (*address, false, bytes@),
            Transfer::WriteRead { address, bytes } => (*address, true, bytes@),
        }
    }
}

/// Frame a write of `value` to the 16-bit register `reg`: exactly three bytes.
pub fn write_frame(address: u8, reg: u16, value: u8) -> (t: Transfer)
    ensures
        t@ == (address, false, write_image(reg, value)),
{
    let bytes = vec![(reg / 256) as u8, (reg % 256) as u8, value];
    proof {
        assert(bytes@ =~= write_image(reg, value));
    }
    Transfer::Write { address, bytes }
}

/// Frame a read of the 16-bit register `reg`: a two-byte address write
/// followed by a one-byte read.
pub fn read_frame(address: u8, reg: u16) -> (t: Transfer)
    ensures
        t@ == (address, true, read_image(reg)),
{
    let bytes = vec![(reg / 256) as u8, (reg % 256) as u8];
    proof {
        assert(bytes@ =~= read_image(reg));
    }
    Transfer::WriteRead { address, bytes }
}

/// Register numbers go on the wire big-endian: the high byte, then the low
/// byte, rebuild the number.
pub proof fn lemma_big_endian(reg: u16)
    ensures
        hi(reg) as int * 256 + lo(reg) as int == reg as int,
        write_image(reg, 0).len() == 3,
        read_image(reg).len() == 2,
{
}

} // verus!
