//! The hardware registers that the counter touches, and the requests by which
//! the library asks its driver to touch them.
//!
//! The library performs no input or output itself. Each routine is a state
//! machine: it hands out one [`Request`] at a time, the driver carries it out on
//! the hardware and hands back the byte that came of it.

use vstd::prelude::*;

verus! {

/// A register of the microcontroller.
#[derive(Clone, Copy, Debug, PartialEq, Eq, Structural)]
pub enum Register {
    /// Address register of the non-volatile memory.
    Eear,
    /// Data register of the non-volatile memory.
    Eedr,
    /// Control register of the non-volatile memory.
    Eecr,
    /// Control and status register of program-memory programming.
    Spmcsr,
    /// Output port that holds the status indicator line.
    PortB,
    /// Output port that drives the eight segment lines.
    PortD,
}

/// Read strobe of the memory's control register.
pub const EERE: u8 = 0x01;

/// Write strobe of the memory's control register; reads as set while a write is in flight.
pub const EEPE: u8 = 0x02;

/// Write enable of the memory's control register.
pub const EEMPE: u8 = 0x04;

/// Reads as set in the programming register while program memory is being programmed.
pub const SPMEN: u8 = 0x01;

/// The status indicator's line on its port.
pub const STATUS_LINE: u8 = 0x20;

/// One thing the driver is asked to do on the hardware.
#[derive(Clone, Copy, Debug, PartialEq, Eq, Structural)]
pub enum Request {
    /// Read the register and answer with its value.
    Load(Register),
    /// Write the value to the register. The answer is not looked at.
    Store(Register, u8),
    /// Save whether interrupts are enabled, then disable them. The answer is not looked at.
    MaskInterrupts,
    /// Put the interrupt enable back as it was saved. The answer is not looked at.
    RestoreInterrupts,
}

/// Whether every bit of `mask` is set in `value`.
pub open spec fn spec_is_set(value: u8, mask: u8) -> bool {
    value & mask == mask
}

/// Whether every bit of `mask` is set in `value`.
#[verifier::when_used_as_spec(spec_is_set)]
pub fn is_set(value: u8, mask: u8) -> (set: bool)
    ensures
        set == spec_is_set(value, mask),
{
    value & mask == mask
}

/// A register reads as busy exactly when its busy bit was put into the value read.
pub proof fn lemma_busy_bits(eecr: u8, spmcsr: u8)
    ensures
        is_set(eecr | EEPE, EEPE),
        !is_set(eecr & !EEPE, EEPE),
        is_set(spmcsr | SPMEN, SPMEN),
        !is_set(spmcsr & !SPMEN, SPMEN),
{
    assert((eecr | 0x02) & 0x02 == 0x02) by (bit_vector);
    assert((eecr & !0x02u8) & 0x02 != 0x02) by (bit_vector);
    assert((spmcsr | 0x01) & 0x01 == 0x01) by (bit_vector);
    assert((spmcsr & !0x01u8) & 0x01 != 0x01) by (bit_vector);
}

/// Each strobe of the memory's control register is a bit of its own.
pub proof fn lemma_strobes()
    ensures
        is_set(EEPE, EEPE),
        !is_set(EEMPE, EEPE),
        is_set(EEMPE, EEMPE),
        !is_set(EERE, EEPE),
        !is_set(EERE, EEMPE),
        is_set(EERE, EERE),
{
    assert(0x02u8 & 0x02 == 0x02) by (bit_vector);
    assert(0x04u8 & 0x02 != 0x02) by (bit_vector);
    assert(0x04u8 & 0x04 == 0x04) by (bit_vector);
    assert(0x01u8 & 0x02 != 0x02) by (bit_vector);
    assert(0x01u8 & 0x04 != 0x04) by (bit_vector);
    assert(0x01u8 & 0x01 == 0x01) by (bit_vector);
}

} // verus!
