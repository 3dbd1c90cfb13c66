//! The persistent counter store: one byte of non-volatile memory, read and
//! written through the memory controller's handshake.

use vstd::prelude::*;
use crate::registers::{is_set, Register, Request, EEMPE, EEPE, EERE, SPMEN};

verus! {

/// What a transfer moves.
#[derive(Clone, Copy, Debug, PartialEq, Eq, Structural)]
pub enum Operation {
    /// Fetch the byte at the address.
    Read,
    /// Put this byte at the address.
    Write(u8),
}

/// How far a transfer has come. Each phase names the request that is outstanding.
#[derive(Clone, Copy, Debug, PartialEq, Eq, Structural)]
pub enum Phase {
    /// Nothing was requested yet.
    Idle,
    /// Interrupts are being masked.
    Masking,
    /// The control register is being read, to see whether a write is in flight.
    PollingWrite,
    /// The programming register is being read, to see whether programming is in flight.
    PollingProgram,
    /// The address is being set.
    Addressing,
    /// The read strobe is being given.
    Strobing,
    /// The data register is being read.
    Fetching,
    /// The data register is being set.
    Loading,
    /// The write enable is being given.
    Arming,
    /// The write strobe is being given.
    Committing,
    /// Interrupts are being restored.
    Unmasking,
    /// The handshake is over.
    Finished,
}

impl Phase {
    /// 1 while the handshake may still have to wait for the memory controller, else 0.
    pub open spec fn waiting(self) -> nat {
        match self {
            Phase::Idle | Phase::Masking | Phase::PollingWrite | Phase::PollingProgram => 1,
            _ => 0,
        }
    }

    /// A bound on the requests that are still to come once the waiting is over or
    /// while it does not go on.
    pub open spec fn steps(self) -> nat {
        match self {
            Phase::Idle => 4,
            Phase::Masking => 3,
            Phase::PollingWrite => 2,
            Phase::PollingProgram => 1,
            Phase::Addressing => 6,
            Phase::Loading => 5,
            Phase::Arming => 4,
            Phase::Committing => 3,
            Phase::Strobing => 4,
            Phase::Fetching => 3,
            Phase::Unmasking => 2,
            Phase::Finished => 1,
        }
    }
}

/// The address of one byte of non-volatile memory.
#[derive(Clone, Copy, Debug, PartialEq, Eq, Structural)]
pub struct EepromAddress(pub u8);

/// One read or write of a byte of non-volatile memory, as a handshake with the
/// memory controller that the driver carries out request by request.
#[derive(Clone, Copy, Debug, PartialEq, Eq, Structural)]
pub struct Transfer {
    /// The byte's address.
    pub address: u8,
    /// Whether the byte is read or written.
    pub operation: Operation,
    /// The request that is outstanding.
    pub phase: Phase,
    /// The byte that a read fetched; 0 until then.
    pub data: u8,
}

impl Transfer {
    /// A transfer of which nothing was requested yet.
    pub open spec fn begin(address: u8, operation: Operation) -> Transfer {
        Transfer { address, operation, phase: Phase::Idle, data: 0 }
    }

    /// This transfer in another phase.
    pub open spec fn at(self, phase: Phase) -> Transfer {
        Transfer { phase, ..self }
    }

    /// The transfer after the answer `reply` to its outstanding request, and the
    /// request it makes next; `None` once the handshake is over.
    pub open spec fn next(self, reply: u8) -> (Transfer, Option<Request>) {
        match self.phase {
            Phase::Idle => (self.at(Phase::Masking), Some(Request::MaskInterrupts)),
            Phase::Masking => (self.at(Phase::PollingWrite), Some(Request::Load(Register::Eecr))),
            Phase::PollingWrite => if is_set(reply, EEPE) {
                (self, Some(Request::Load(Register::Eecr)))
            } else {
                (self.at(Phase::PollingProgram), Some(Request::Load(Register::Spmcsr)))
            },
            Phase::PollingProgram => if is_set(reply, SPMEN) {
                (self.at(Phase::PollingWrite), Some(Request::Load(Register::Eecr)))
            } else {
                (self.at(Phase::Addressing), Some(Request::Store(Register::Eear, self.address)))
            },
            Phase::Addressing => match self.operation {
                Operation::Read => (
                    self.at(Phase::Strobing),
                    Some(Request::Store(Register::Eecr, EERE)),
                ),
                Operation::Write(value) => (
                    self.at(Phase::Loading),
                    Some(Request::Store(Register::Eedr, value)),
                ),
            },
            Phase::Strobing => (self.at(Phase::Fetching), Some(Request::Load(Register::Eedr))),
            Phase::Fetching => (
                Transfer { data: reply, phase: Phase::Unmasking, ..self },
                Some(Request::RestoreInterrupts),
            ),
            Phase::Loading => (self.at(Phase::Arming), Some(Request::Store(Register::Eecr, EEMPE))),
            Phase::Arming => (
                self.at(Phase::Committing),
                Some(Request::Store(Register::Eecr, EEPE)),
            ),
            Phase::Committing => (self.at(Phase::Unmasking), Some(Request::RestoreInterrupts)),
            Phase::Unmasking => (self.at(Phase::Finished), None),
            Phase::Finished => (self, None),
        }
    }

    /// Takes the answer to the outstanding request and makes the next one.
    pub fn advance(&mut self, reply: u8) -> (request: Option<Request>)
        ensures
            (*final(self), request) == old(self).next(reply),
    {
        match self.phase {
            Phase::Idle => {
                self.phase = Phase::Masking;
                Some(Request::MaskInterrupts)
            },
            Phase::Masking => {
                self.phase = Phase::PollingWrite;
                Some(Request::Load(Register::Eecr))
            },
            Phase::PollingWrite => {
                if is_set(reply, EEPE) {
                    Some(Request::Load(Register::Eecr))
                } else {
                    self.phase = Phase::PollingProgram;
                    Some(Request::Load(Register::Spmcsr))
                }
            },
            Phase::PollingProgram => {
                if is_set(reply, SPMEN) {
                    self.phase = Phase::PollingWrite;
                    Some(Request::Load(Register::Eecr))
                } else {
                    self.phase = Phase::Addressing;
                    Some(Request::Store(Register::Eear, self.address))
                }
            },
            Phase::Addressing => {
                match self.operation {
                    Operation::Read => {
                        self.phase = Phase::Strobing;
                        Some(Request::Store(Register::Eecr, EERE))
                    },
                    Operation::Write(value) => {
                        self.phase = Phase::Loading;
                        Some(Request::Store(Register::Eedr, value))
                    },
                }
            },
            Phase::Strobing => {
                self.phase = Phase::Fetching;
                Some(Request::Load(Register::Eedr))
            },
            Phase::Fetching => {
                self.data = reply;
                self.phase = Phase::Unmasking;
                Some(Request::RestoreInterrupts)
            },
            Phase::Loading => {
                self.phase = Phase::Arming;
                Some(Request::Store(Register::Eecr, EEMPE))
            },
            Phase::Arming => {
                self.phase = Phase::Committing;
                Some(Request::Store(Register::Eecr, EEPE))
            },
            Phase::Committing => {
                self.phase = Phase::Unmasking;
                Some(Request::RestoreInterrupts)
            },
            Phase::Unmasking => {
                self.phase = Phase::Finished;
                None
            },
            Phase::Finished => None,
        }
    }
}

impl EepromAddress {
    /// Begins reading the byte at this address.
    pub fn read(&self) -> (transfer: Transfer)
        ensures
            transfer == Transfer::begin(self.0, Operation::Read),
    {
        Transfer { address: self.0, operation: Operation::Read, phase: Phase::Idle, data: 0 }
    }

    /// Begins writing `val` to the byte at this address.
    pub fn write(&mut self, val: u8) -> (transfer: Transfer)
        ensures
            *final(self) == *old(self),
            transfer == Transfer::begin(old(self).0, Operation::Write(val)),
    {
        Transfer { address: self.0, operation: Operation::Write(val), phase: Phase::Idle, data: 0 }
    }
}

} // verus!
