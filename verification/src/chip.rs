//! A model of the microcontroller as far as the counter touches it. It exists in
//! specifications only: the routines of this library are proved against it.

use vstd::prelude::*;
use crate::counter::{Action, Counter, Routine};
use crate::eeprom::{Operation, Phase, Transfer};
use crate::registers::{is_set, lemma_busy_bits, Register, Request, EEMPE, EEPE, EERE, SPMEN};

verus! {

/// The state of the microcontroller.
pub struct Chip {
    /// Lines of the port that holds the status indicator.
    pub port_b: u8,
    /// Lines of the port that drives the segments.
    pub port_d: u8,
    /// Address register of the non-volatile memory.
    pub eear: u8,
    /// Data register of the non-volatile memory.
    pub eedr: u8,
    /// What the memory's control register reads as, but for its write strobe.
    pub eecr: u8,
    /// What the programming register reads as, but for its enable bit.
    pub spmcsr: u8,
    /// The bytes of the non-volatile memory.
    pub cells: Map<u8, u8>,
    /// For how many more reads of the control register a write shows as in flight.
    pub writing: nat,
    /// For how many more reads of the programming register programming shows as in flight.
    pub programming: nat,
    /// For how many reads of the control register a write that starts now shows as in flight.
    pub write_time: nat,
    /// Whether the write enable was given by the register access just before.
    pub armed: bool,
    /// Whether interrupts are enabled.
    pub interrupts: bool,
    /// The interrupt enable as it was last saved.
    pub saved: bool,
    /// Whether a register of the memory was ever touched while interrupts were enabled.
    pub exposed: bool,
}

impl Chip {
    /// Whether `register` belongs to the memory controller.
    pub open spec fn guards(register: Register) -> bool {
        register == Register::Eear || register == Register::Eedr || register == Register::Eecr
    }

    /// The chip after an access to `register`, before the access takes effect: the
    /// window that a write enable opened is over, and an access to the memory with
    /// interrupts enabled is recorded.
    pub open spec fn touch(self, register: Register) -> Chip {
        Chip {
            armed: false,
            exposed: self.exposed || (Self::guards(register) && self.interrupts),
            ..self
        }
    }

    /// The chip after `register` was read, and the value read.
    pub open spec fn load(self, register: Register) -> (Chip, u8) {
        let chip = self.touch(register);
        match register {
            Register::Eear => (chip, self.eear),
            Register::Eedr => (chip, self.eedr),
            Register::Eecr => if self.writing > 0 {
                (Chip { writing: (self.writing - 1) as nat, ..chip }, self.eecr | EEPE)
            } else {
                (chip, self.eecr & !EEPE)
            },
            Register::Spmcsr => if self.programming > 0 {
                (Chip { programming: (self.programming - 1) as nat, ..chip }, self.spmcsr | SPMEN)
            } else {
                (chip, self.spmcsr & !SPMEN)
            },
            Register::PortB => (chip, self.port_b),
            Register::PortD => (chip, self.port_d),
        }
    }

    /// Whether the memory controller is free to take a command.
    pub open spec fn ready(self) -> bool {
        self.writing == 0
    }

    /// The chip after `value` was written to the memory's control register.
    ///
    /// A write strobe starts a write only directly after a write enable, and not
    /// while program memory is being programmed; otherwise it is ignored. A read
    /// strobe is ignored while a write is in flight.
    pub open spec fn command(self, value: u8) -> Chip {
        let chip = self.touch(Register::Eecr);
        if is_set(value, EEPE) {
            if self.armed && self.ready() && self.programming == 0 {
                Chip {
                    cells: self.cells.insert(self.eear, self.eedr),
                    writing: self.write_time,
                    ..chip
                }
            } else {
                chip
            }
        } else if is_set(value, EEMPE) {
            Chip { armed: self.ready(), ..chip }
        } else if is_set(value, EERE) && self.ready() {
            Chip { eedr: self.cells[self.eear], ..chip }
        } else {
            chip
        }
    }

    /// The chip after `value` was written to `register`.
    ///
    /// The address register cannot be changed while a write is in flight.
    pub open spec fn store(self, register: Register, value: u8) -> Chip {
        let chip = self.touch(register);
        match register {
            Register::Eear => if self.ready() {
                Chip { eear: value, ..chip }
            } else {
                chip
            },
            Register::Eedr => Chip { eedr: value, ..chip },
            Register::Eecr => self.command(value),
            Register::Spmcsr => chip,
            Register::PortB => Chip { port_b: value, ..chip },
            Register::PortD => Chip { port_d: value, ..chip },
        }
    }

    /// The chip after the driver has carried out `request`, and the driver's answer.
    pub open spec fn serve(self, request: Request) -> (Chip, u8) {
        match request {
            Request::Load(register) => self.load(register),
            Request::Store(register, value) => (self.store(register, value), 0),
            Request::MaskInterrupts => (
                Chip { saved: self.interrupts, interrupts: false, armed: false, ..self },
                0,
            ),
            Request::RestoreInterrupts => (
                Chip { interrupts: self.saved, armed: false, ..self },
                0,
            ),
        }
    }

    /// How many more polls the handshake `transfer` may have to make before the
    /// memory controller is free, counted so that every poll lowers it.
    pub open spec fn pending(self, transfer: Transfer, reply: u8) -> nat {
        match transfer.phase {
            Phase::Idle | Phase::Masking => 2 * (self.writing + self.programming),
            Phase::PollingWrite => 2 * (self.writing + self.programming) + if is_set(reply, EEPE) {
                1nat
            } else {
                0nat
            },
            Phase::PollingProgram => 2 * (self.writing + self.programming) + if is_set(
                reply,
                SPMEN,
            ) {
                1nat
            } else {
                0nat
            },
            _ => 0,
        }
    }

    /// The chip and the transfer after the driver has carried the handshake
    /// `transfer` through to its end, `reply` being the answer to the request that
    /// is outstanding.
    pub open spec fn transfer(self, transfer: Transfer, reply: u8) -> (Chip, Transfer)
        decreases transfer.phase.waiting(), self.pending(transfer, reply), transfer.phase.steps(),
        via Self::transfer_terminates
    {
        let (then, request) = transfer.next(reply);
        match request {
            None => (self, then),
            Some(request) => {
                let (chip, answer) = self.serve(request);
                chip.transfer(then, answer)
            },
        }
    }

    #[via_fn]
    proof fn transfer_terminates(self, transfer: Transfer, reply: u8) {
        lemma_busy_bits(self.eecr, self.spmcsr);
    }

    /// The chip after the byte at `address` was read, and the byte that the read gave.
    pub open spec fn read(self, address: u8) -> (Chip, u8) {
        let (chip, transfer) = self.transfer(Transfer::begin(address, Operation::Read), 0);
        (chip, transfer.data)
    }

    /// The chip after `value` was written to the byte at `address`.
    pub open spec fn write(self, address: u8, value: u8) -> Chip {
        self.transfer(Transfer::begin(address, Operation::Write(value)), 0).0
    }

    /// The chip after the driver has carried out `action`, and the driver's answer.
    pub open spec fn perform(self, action: Action) -> (Chip, u8) {
        match action {
            Action::Bus(request) => self.serve(request),
            Action::Eeprom(transfer) => {
                let (chip, done) = self.transfer(transfer, 0);
                (chip, done.data)
            },
        }
    }

    /// The chip after the driver has carried `routine` through to its end, `reply`
    /// being the answer to the action that is outstanding.
    pub open spec fn run(self, routine: Routine, reply: u8) -> Chip
        decreases routine.stage.steps(),
    {
        let (then, action) = routine.next(reply);
        match action {
            None => self,
            Some(action) => {
                let (chip, answer) = self.perform(action);
                chip.run(then, answer)
            },
        }
    }

    /// The chip and the counter after an edge of the button's line.
    pub open spec fn edge(self, counter: Counter) -> (Chip, Counter) {
        let (then, routine) = counter.after_edge();
        match routine {
            None => (self, then),
            Some(routine) => (self.run(routine, 0), then),
        }
    }
}

} // verus!
