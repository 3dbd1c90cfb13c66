use counter_avr::counter::{successor, Action, Counter, EdgeState, Purpose, Routine, Stage};
use counter_avr::eeprom::{EepromAddress, Operation, Phase, Transfer};
use counter_avr::registers::{Register, Request, EEMPE, EEPE, EERE, SPMEN, STATUS_LINE};
use counter_avr::segments::Segments;

/// A stand-in for the microcontroller that keeps a record of what was asked of it.
struct Bench {
    port_b: u8,
    port_d: u8,
    eear: u8,
    eedr: u8,
    cells: [u8; 256],
    writing: u32,
    programming: u32,
    write_time: u32,
    armed: bool,
    interrupts: bool,
    saved: bool,
    exposed: bool,
    asked: Vec<Request>,
}

impl Bench {
    fn new() -> Bench {
        Bench {
            port_b: 0,
            port_d: 0,
            eear: 0,
            eedr: 0,
            cells: [0xff; 256],
            writing: 0,
            programming: 0,
            write_time: 3,
            armed: false,
            interrupts: true,
            saved: false,
            exposed: false,
            asked: Vec::new(),
        }
    }

    fn touch(&mut self, register: Register) -> bool {
        let was_armed = self.armed;
        self.armed = false;
        if matches!(register, Register::Eear | Register::Eedr | Register::Eecr) && self.interrupts {
            self.exposed = true;
        }
        was_armed
    }

    fn serve(&mut self, request: Request) -> u8 {
        self.asked.push(request);
        match request {
            Request::Load(register) => {
                self.touch(register);
                match register {
                    Register::Eear => self.eear,
                    Register::Eedr => self.eedr,
                    Register::Eecr => {
                        if self.writing > 0 {
                            self.writing -= 1;
                            0x30 | EEPE
                        } else {
                            0x30
                        }
                    }
                    Register::Spmcsr => {
                        if self.programming > 0 {
                            self.programming -= 1;
                            0x80 | SPMEN
                        } else {
                            0x80
                        }
                    }
                    Register::PortB => self.port_b,
                    Register::PortD => self.port_d,
                }
            }
            Request::Store(register, value) => {
                let was_armed = self.touch(register);
                let ready = self.writing == 0;
                match register {
                    Register::Eear => {
                        if ready {
                            self.eear = value;
                        }
                    }
                    Register::Eedr => self.eedr = value,
                    Register::Eecr => {
                        if value & EEPE == EEPE {
                            if was_armed && ready && self.programming == 0 {
                                self.cells[self.eear as usize] = self.eedr;
                                self.writing = self.write_time;
                            }
                        } else if value & EEMPE == EEMPE {
                            self.armed = ready;
                        } else if value & EERE == EERE && ready {
                            self.eedr = self.cells[self.eear as usize];
                        }
                    }
                    Register::Spmcsr => {}
                    Register::PortB => self.port_b = value,
                    Register::PortD => self.port_d = value,
                }
                0
            }
            Request::MaskInterrupts => {
                self.armed = false;
                self.saved = self.interrupts;
                self.interrupts = false;
                0
            }
            Request::RestoreInterrupts => {
                self.armed = false;
                self.interrupts = self.saved;
                0
            }
        }
    }

    fn transfer(&mut self, mut transfer: Transfer) -> u8 {
        let mut reply = 0;
        let mut steps = 0;
        while let Some(request) = transfer.advance(reply) {
            reply = self.serve(request);
            steps += 1;
            assert!(steps < 10_000);
        }
        assert_eq!(transfer.phase, Phase::Finished);
        transfer.data
    }

    fn run(&mut self, mut routine: Routine) {
        let mut reply = 0;
        while let Some(action) = routine.advance(reply) {
            reply = match action {
                Action::Bus(request) => self.serve(request),
                Action::Eeprom(transfer) => self.transfer(transfer),
            };
        }
        assert_eq!(routine.stage, Stage::Done);
    }

    fn edge(&mut self, counter: &mut Counter) {
        if let Some(routine) = counter.on_edge() {
            self.run(routine);
        }
    }
}

fn read_requests(address: u8) -> Vec<Request> {
    vec![
        Request::MaskInterrupts,
        Request::Load(Register::Eecr),
        Request::Load(Register::Spmcsr),
        Request::Store(Register::Eear, address),
        Request::Store(Register::Eecr, 0x01),
        Request::Load(Register::Eedr),
        Request::RestoreInterrupts,
    ]
}

fn write_requests(address: u8, value: u8) -> Vec<Request> {
    vec![
        Request::MaskInterrupts,
        Request::Load(Register::Eecr),
        Request::Load(Register::Spmcsr),
        Request::Store(Register::Eear, address),
        Request::Store(Register::Eedr, value),
        Request::Store(Register::Eecr, 0x04),
        Request::Store(Register::Eecr, 0x02),
        Request::RestoreInterrupts,
    ]
}

#[test]
fn register_bits_are_those_of_the_controller() {
    assert_eq!(EERE, 0b0000_0001);
    assert_eq!(EEPE, 0b0000_0010);
    assert_eq!(EEMPE, 0b0000_0100);
    assert_eq!(SPMEN, 0b0000_0001);
    assert_eq!(STATUS_LINE, 0b0010_0000);
}

#[test]
fn read_begins_an_idle_transfer() {
    let transfer = EepromAddress(5).read();
    assert_eq!(
        transfer,
        Transfer { address: 5, operation: Operation::Read, phase: Phase::Idle, data: 0 }
    );
}

#[test]
fn write_begins_an_idle_transfer_and_keeps_the_address() {
    let mut address = EepromAddress(9);
    let transfer = address.write(4);
    assert_eq!(address, EepromAddress(9));
    assert_eq!(
        transfer,
        Transfer { address: 9, operation: Operation::Write(4), phase: Phase::Idle, data: 0 }
    );
}

#[test]
fn read_handshake_on_a_free_controller() {
    let mut bench = Bench::new();
    bench.cells[17] = 0x5a;
    let value = bench.transfer(EepromAddress(17).read());
    assert_eq!(value, 0x5a);
    assert_eq!(bench.asked, read_requests(17));
    assert!(bench.interrupts);
    assert!(!bench.exposed);
}

#[test]
fn write_handshake_on_a_free_controller() {
    let mut bench = Bench::new();
    bench.transfer(EepromAddress(17).write(0xa5));
    assert_eq!(bench.cells[17], 0xa5);
    assert_eq!(bench.asked, write_requests(17, 0xa5));
    assert!(bench.interrupts);
    assert!(!bench.exposed);
}

#[test]
fn write_enable_comes_directly_before_the_write_strobe() {
    let mut bench = Bench::new();
    bench.transfer(EepromAddress(0).write(1));
    let enable = bench
        .asked
        .iter()
        .position(|r| *r == Request::Store(Register::Eecr, EEMPE))
        .unwrap();
    assert_eq!(bench.asked[enable + 1], Request::Store(Register::Eecr, EEPE));
}

#[test]
fn transfer_waits_while_a_write_is_in_flight() {
    let mut bench = Bench::new();
    bench.cells[2] = 7;
    bench.writing = 2;
    let value = bench.transfer(EepromAddress(2).read());
    assert_eq!(value, 7);
    assert_eq!(
        bench.asked,
        vec![
            Request::MaskInterrupts,
            Request::Load(Register::Eecr),
            Request::Load(Register::Eecr),
            Request::Load(Register::Eecr),
            Request::Load(Register::Spmcsr),
            Request::Store(Register::Eear, 2),
            Request::Store(Register::Eecr, EERE),
            Request::Load(Register::Eedr),
            Request::RestoreInterrupts,
        ]
    );
}

#[test]
fn transfer_waits_while_programming_is_in_flight() {
    let mut bench = Bench::new();
    bench.cells[2] = 7;
    bench.programming = 1;
    let value = bench.transfer(EepromAddress(2).read());
    assert_eq!(value, 7);
    assert_eq!(
        bench.asked,
        vec![
            Request::MaskInterrupts,
            Request::Load(Register::Eecr),
            Request::Load(Register::Spmcsr),
            Request::Load(Register::Eecr),
            Request::Load(Register::Spmcsr),
            Request::Store(Register::Eear, 2),
            Request::Store(Register::Eecr, EERE),
            Request::Load(Register::Eedr),
            Request::RestoreInterrupts,
        ]
    );
}

#[test]
fn transfer_steps_follow_the_answers() {
    let mut transfer = EepromAddress(3).read();
    assert_eq!(transfer.advance(0xee), Some(Request::MaskInterrupts));
    assert_eq!(transfer.phase, Phase::Masking);
    assert_eq!(transfer.advance(0xee), Some(Request::Load(Register::Eecr)));
    assert_eq!(transfer.advance(0x02), Some(Request::Load(Register::Eecr)));
    assert_eq!(transfer.phase, Phase::PollingWrite);
    assert_eq!(transfer.advance(0x0d), Some(Request::Load(Register::Spmcsr)));
    assert_eq!(transfer.advance(0x01), Some(Request::Load(Register::Eecr)));
    assert_eq!(transfer.advance(0x00), Some(Request::Load(Register::Spmcsr)));
    assert_eq!(transfer.advance(0xfe), Some(Request::Store(Register::Eear, 3)));
    assert_eq!(transfer.advance(0), Some(Request::Store(Register::Eecr, EERE)));
    assert_eq!(transfer.advance(0), Some(Request::Load(Register::Eedr)));
    assert_eq!(transfer.advance(0x42), Some(Request::RestoreInterrupts));
    assert_eq!(transfer.data, 0x42);
    assert_eq!(transfer.advance(0x99), None);
    assert_eq!(transfer.phase, Phase::Finished);
    assert_eq!(transfer.advance(0x99), None);
    assert_eq!(transfer.data, 0x42);
}

#[test]
fn write_then_read_gives_back_every_byte() {
    for value in 0u8..=255 {
        let mut bench = Bench::new();
        let mut address = EepromAddress(0);
        bench.transfer(address.write(value));
        assert_eq!(bench.transfer(address.read()), value);
    }
}

#[test]
fn write_leaves_other_cells_alone() {
    let mut bench = Bench::new();
    bench.cells[4] = 11;
    bench.transfer(EepromAddress(5).write(22));
    assert_eq!(bench.cells[4], 11);
    assert_eq!(bench.cells[5], 22);
    assert_eq!(bench.transfer(EepromAddress(4).read()), 11);
}

#[test]
fn interrupts_stay_off_when_they_were_off() {
    let mut bench = Bench::new();
    bench.interrupts = false;
    bench.transfer(EepromAddress(1).write(2));
    assert!(!bench.interrupts);
    assert!(!bench.exposed);
}

#[test]
fn successor_counts_up_and_wraps() {
    assert_eq!(successor(0), 1);
    assert_eq!(successor(7), 8);
    assert_eq!(successor(8), 9);
    assert_eq!(successor(9), 0);
    assert_eq!(successor(10), 1);
    assert_eq!(successor(254), 5);
    assert_eq!(successor(255), 6);
}

#[test]
fn edge_state_flips() {
    assert_eq!(
        EdgeState::ArmedWaitingForFirstEdge.flipped(),
        EdgeState::ArmedWaitingForSecondEdge
    );
    assert_eq!(
        EdgeState::ArmedWaitingForSecondEdge.flipped(),
        EdgeState::ArmedWaitingForFirstEdge
    );
}

#[test]
fn new_counter_waits_for_a_first_edge() {
    let counter = Counter::new(EepromAddress(0));
    assert_eq!(counter.state, EdgeState::ArmedWaitingForFirstEdge);
    assert_eq!(counter.number, EepromAddress(0));
}

#[test]
fn one_edge_counts_nothing() {
    let mut bench = Bench::new();
    bench.cells[0] = 4;
    let mut counter = Counter::new(EepromAddress(0));
    assert_eq!(counter.on_edge(), None);
    assert_eq!(counter.state, EdgeState::ArmedWaitingForSecondEdge);
    let mut counter = Counter::new(EepromAddress(0));
    bench.edge(&mut counter);
    assert!(bench.asked.is_empty());
    assert_eq!(bench.cells[0], 4);
    assert_eq!(bench.port_b, 0);
    assert_eq!(bench.port_d, 0);
}

#[test]
fn second_edge_starts_the_press_routine() {
    let mut counter = Counter::new(EepromAddress(6));
    assert_eq!(counter.on_edge(), None);
    assert_eq!(
        counter.on_edge(),
        Some(Routine {
            purpose: Purpose::Advance,
            number: EepromAddress(6),
            stage: Stage::Start,
            count: 0,
        })
    );
    assert_eq!(counter.state, EdgeState::ArmedWaitingForFirstEdge);
}

#[test]
fn two_edges_count_once_and_toggle_once() {
    for start in 0u8..=9 {
        let mut bench = Bench::new();
        bench.cells[0] = start;
        bench.port_b = 0x05;
        let mut counter = Counter::new(EepromAddress(0));
        bench.edge(&mut counter);
        bench.edge(&mut counter);
        let next = (start + 1) % 10;
        assert_eq!(bench.cells[0], next);
        assert_eq!(bench.port_b, 0x25);
        assert_eq!(bench.port_d, Segments::from_u8(next).to_output_pattern());
        assert_eq!(counter.state, EdgeState::ArmedWaitingForFirstEdge);
        assert!(!bench.exposed);
    }
}

#[test]
fn press_asks_in_order() {
    let mut bench = Bench::new();
    bench.cells[0] = 2;
    bench.port_b = 0x20;
    let mut counter = Counter::new(EepromAddress(0));
    bench.edge(&mut counter);
    bench.edge(&mut counter);
    let mut expected = vec![Request::Load(Register::PortB), Request::Store(Register::PortB, 0x00)];
    expected.extend(read_requests(0));
    expected.extend(write_requests(0, 3));
    expected.push(Request::Store(Register::PortD, 0xb0));
    assert_eq!(bench.asked, expected);
}

#[test]
fn count_wraps_from_nine_to_zero() {
    let mut bench = Bench::new();
    bench.cells[0] = 9;
    let mut counter = Counter::new(EepromAddress(0));
    bench.edge(&mut counter);
    bench.edge(&mut counter);
    assert_eq!(bench.cells[0], 0);
    assert_eq!(bench.port_d, Segments::from_u8(0).to_output_pattern());
    assert_eq!(bench.port_d, 0xc0);
}

#[test]
fn seven_becomes_eight_after_two_edges() {
    let mut bench = Bench::new();
    bench.cells[0] = 7;
    let before = bench.port_b;
    let mut counter = Counter::new(EepromAddress(0));
    bench.edge(&mut counter);
    bench.edge(&mut counter);
    assert_eq!(bench.cells[0], 8);
    assert_eq!(bench.port_d, Segments::from_u8(8).to_output_pattern());
    assert_eq!(bench.port_d, 0x80);
    assert_eq!(bench.port_b, before ^ STATUS_LINE);
    let toggles = bench
        .asked
        .iter()
        .filter(|r| matches!(r, Request::Store(Register::PortB, _)))
        .count();
    assert_eq!(toggles, 1);
}

#[test]
fn four_edges_make_two_presses() {
    let mut bench = Bench::new();
    bench.cells[0] = 8;
    let mut counter = Counter::new(EepromAddress(0));
    for _ in 0..4 {
        bench.edge(&mut counter);
    }
    assert_eq!(bench.cells[0], 0);
    assert_eq!(bench.port_b, 0);
    assert_eq!(bench.port_d, 0xc0);
}

#[test]
fn boot_shows_the_persisted_count_and_changes_nothing_else() {
    let mut bench = Bench::new();
    bench.cells[0] = 3;
    bench.port_b = 0x20;
    let counter = Counter::new(EepromAddress(0));
    let routine = counter.boot();
    assert_eq!(routine.purpose, Purpose::Restore);
    bench.run(routine);
    assert_eq!(bench.port_d, Segments::from_u8(3).to_output_pattern());
    assert_eq!(bench.port_d, 0xb0);
    assert_eq!(bench.cells[0], 3);
    assert_eq!(bench.port_b, 0x20);
    let mut expected = read_requests(0);
    expected.push(Request::Store(Register::PortD, 0xb0));
    assert_eq!(bench.asked, expected);
    assert_eq!(counter.state, EdgeState::ArmedWaitingForFirstEdge);
}

#[test]
fn blank_memory_boots_as_zero_and_counts_on() {
    let mut bench = Bench::new();
    let mut counter = Counter::new(EepromAddress(0));
    bench.run(counter.boot());
    assert_eq!(bench.port_d, 0xc0);
    assert_eq!(bench.cells[0], 0xff);
    bench.edge(&mut counter);
    bench.edge(&mut counter);
    assert_eq!(bench.cells[0], 6);
    assert_eq!(bench.port_d, Segments::from_u8(6).to_output_pattern());
}

#[test]
fn routine_steps_follow_the_answers() {
    let mut routine = Counter::new(EepromAddress(1)).boot();
    assert_eq!(routine.advance(0), Some(Action::Eeprom(EepromAddress(1).read())));
    assert_eq!(routine.advance(5), Some(Action::Bus(Request::Store(Register::PortD, 0x92))));
    assert_eq!(routine.count, 5);
    assert_eq!(routine.advance(0), None);
    assert_eq!(routine.advance(0), None);
    assert_eq!(routine.stage, Stage::Done);
}
