//! What the routines achieve on the chip, proved of every state of the chip.

use vstd::prelude::*;
use crate::chip::Chip;
use crate::counter::{successor, Counter, EdgeState, Purpose, Routine};
use crate::eeprom::{Operation, Phase, Transfer};
use crate::registers::{is_set, lemma_busy_bits, lemma_strobes, EEPE, SPMEN, STATUS_LINE};
use crate::segments::{glyph, output_pattern};

verus! {

/// What a transfer leaves behind that began at `begun` on a chip that was `masked`
/// when the transfer began to poll.
spec fn outcome(masked: Chip, begun: Transfer) -> (Chip, Transfer) {
    let chip = Chip {
        eear: begun.address,
        programming: 0,
        armed: false,
        interrupts: masked.saved,
        ..masked
    };
    match begun.operation {
        Operation::Read => (
            Chip { eedr: masked.cells[begun.address], writing: 0, ..chip },
            Transfer { phase: Phase::Finished, data: masked.cells[begun.address], ..begun },
        ),
        Operation::Write(value) => (
            Chip {
                eedr: value,
                cells: masked.cells.insert(begun.address, value),
                writing: masked.write_time,
                ..chip
            },
            Transfer { phase: Phase::Finished, ..begun },
        ),
    }
}

/// A transfer that has masked interrupts and polls the memory controller goes
/// through, however long the controller stays busy.
proof fn lemma_polling_settles(chip: Chip, transfer: Transfer, reply: u8)
    requires
        transfer.phase == Phase::PollingWrite || transfer.phase == Phase::PollingProgram,
        !chip.interrupts,
        !chip.armed,
        transfer.phase == Phase::PollingWrite && !is_set(reply, EEPE) ==> chip.writing == 0,
        transfer.phase == Phase::PollingProgram ==> chip.writing == 0,
        transfer.phase == Phase::PollingProgram && !is_set(reply, SPMEN) ==> chip.programming
            == 0,
    ensures
        chip.transfer(transfer, reply) == outcome(chip, transfer),
    decreases chip.pending(transfer, reply), transfer.phase.steps(),
{
    lemma_busy_bits(chip.eecr, chip.spmcsr);
    lemma_strobes();
    let (then, request) = transfer.next(reply);
    let (next, answer) = chip.serve(request.unwrap());
    if then.phase == Phase::PollingWrite || then.phase == Phase::PollingProgram {
        lemma_polling_settles(next, then, answer);
        assert(outcome(next, then) == outcome(chip, transfer));
    } else {
        reveal_with_fuel(Chip::transfer, 8);
    }
}

/// On every chip a transfer goes through, whatever the memory controller is busy
/// with when it begins.
proof fn lemma_transfer_settles(chip: Chip, address: u8, operation: Operation, reply: u8)
    ensures
        chip.transfer(Transfer::begin(address, operation), reply) == outcome(
            Chip { saved: chip.interrupts, interrupts: false, armed: false, ..chip },
            Transfer::begin(address, operation),
        ),
{
    lemma_busy_bits(chip.eecr, chip.spmcsr);
    let begun = Transfer::begin(address, operation);
    let masked = Chip { saved: chip.interrupts, interrupts: false, armed: false, ..chip };
    let (polled, answer) = masked.serve(begun.at(Phase::Masking).next(0).1.unwrap());
    reveal_with_fuel(Chip::transfer, 3);
    lemma_polling_settles(polled, begun.at(Phase::PollingWrite), answer);
    assert(outcome(polled, begun.at(Phase::PollingWrite)) == outcome(masked, begun));
}

/// A read gives the byte that the memory holds at the address. It waits until
/// the memory controller is free, leaves the memory, the ports and the interrupt
/// enable as they were, and touches the controller with interrupts masked only.
pub proof fn read_gives_stored_byte(chip: Chip, address: u8)
    ensures
        chip.read(address) == (
            Chip {
                eear: address,
                eedr: chip.cells[address],
                writing: 0,
                programming: 0,
                armed: false,
                saved: chip.interrupts,
                ..chip
            },
            chip.cells[address],
        ),
{
    lemma_transfer_settles(chip, address, Operation::Read, 0);
}

/// A write puts the byte into the memory at the address. It waits until the
/// memory controller is free, leaves the rest of the memory, the ports and the
/// interrupt enable as they were, and touches the controller with interrupts
/// masked only.
pub proof fn write_stores_byte(chip: Chip, address: u8, value: u8)
    ensures
        chip.write(address, value) == (Chip {
            eear: address,
            eedr: value,
            cells: chip.cells.insert(address, value),
            writing: chip.write_time,
            programming: 0,
            armed: false,
            saved: chip.interrupts,
            ..chip
        }),
{
    lemma_transfer_settles(chip, address, Operation::Write(value), 0);
}

/// A read that follows a write to the same address gives the byte written,
/// whatever the byte, and however long the write stays in flight.
pub proof fn write_then_read(chip: Chip, address: u8, value: u8)
    ensures
        chip.write(address, value).read(address).1 == value,
{
    write_stores_byte(chip, address, value);
    read_gives_stored_byte(chip.write(address, value), address);
}

/// The first edge of a press changes nothing on the chip: the count is not
/// advanced and the status indicator is not toggled. The counter then waits for
/// the second edge.
pub proof fn first_edge_changes_nothing(chip: Chip, counter: Counter)
    requires
        counter.state == EdgeState::ArmedWaitingForFirstEdge,
    ensures
        chip.edge(counter) == (
            chip,
            Counter { state: EdgeState::ArmedWaitingForSecondEdge, ..counter },
        ),
{
}

/// The second edge of a press advances the persisted count once, to its
/// successor, toggles the status indicator's line once, and shows the new
/// count. The counter then waits for the first edge of the next press.
pub proof fn second_edge_counts_the_press(chip: Chip, counter: Counter)
    requires
        counter.state == EdgeState::ArmedWaitingForSecondEdge,
    ensures
        ({
            let next = successor(chip.cells[counter.number.0]);
            chip.edge(counter) == (
                Chip {
                    port_b: chip.port_b ^ STATUS_LINE,
                    port_d: output_pattern(glyph(next as int)),
                    eear: counter.number.0,
                    eedr: next,
                    cells: chip.cells.insert(counter.number.0, next),
                    writing: chip.write_time,
                    programming: 0,
                    armed: false,
                    saved: chip.interrupts,
                    ..chip
                },
                Counter { state: EdgeState::ArmedWaitingForFirstEdge, ..counter },
            )
        }),
{
    let address = counter.number.0;
    let next = successor(chip.cells[address]);
    let toggled = Chip { port_b: chip.port_b ^ STATUS_LINE, armed: false, ..chip };
    read_gives_stored_byte(toggled, address);
    let fetched = toggled.read(address).0;
    write_stores_byte(fetched, address, next);
    reveal_with_fuel(Chip::run, 7);
}

/// Two edges, from a counter that waits for a first edge, make one press: the
/// persisted count advances exactly once, the status indicator's line is
/// toggled exactly once, the display shows the new count, and the counter is
/// back where it was.
pub proof fn two_edges_make_one_press(chip: Chip, counter: Counter)
    requires
        counter.state == EdgeState::ArmedWaitingForFirstEdge,
    ensures
        ({
            let (after_first, waiting) = chip.edge(counter);
            let (after_second, rearmed) = after_first.edge(waiting);
            let next = successor(chip.cells[counter.number.0]);
            &&& after_first == chip
            &&& rearmed == counter
            &&& after_second.cells == chip.cells.insert(counter.number.0, next)
            &&& after_second.port_b == chip.port_b ^ STATUS_LINE
            &&& after_second.port_d == output_pattern(glyph(next as int))
            &&& after_second.interrupts == chip.interrupts
            &&& after_second.exposed == chip.exposed
        }),
{
    first_edge_changes_nothing(chip, counter);
    second_edge_counts_the_press(
        chip,
        Counter { state: EdgeState::ArmedWaitingForSecondEdge, ..counter },
    );
}

/// At start-up the display is set to the glyph of the persisted count, and the
/// count itself, the rest of the memory and the status indicator stay as they were.
pub proof fn boot_shows_persisted_count(chip: Chip, counter: Counter)
    ensures
        chip.run(Routine::begin(Purpose::Restore, counter.number), 0) == (Chip {
            port_d: output_pattern(glyph(chip.cells[counter.number.0] as int)),
            eear: counter.number.0,
            eedr: chip.cells[counter.number.0],
            writing: 0,
            programming: 0,
            armed: false,
            saved: chip.interrupts,
            ..chip
        }),
{
    read_gives_stored_byte(chip, counter.number.0);
    reveal_with_fuel(Chip::run, 4);
}

/// Toggling the status indicator changes its line and no other line of the port.
pub proof fn toggle_flips_status_line_only(port: u8)
    ensures
        is_set(port ^ STATUS_LINE, STATUS_LINE) != is_set(port, STATUS_LINE),
        (port ^ STATUS_LINE) & !STATUS_LINE == port & !STATUS_LINE,
        (port ^ STATUS_LINE) ^ STATUS_LINE == port,
{
    assert(((port ^ 0x20) & 0x20 == 0x20) != (port & 0x20 == 0x20)) by (bit_vector);
    assert((port ^ 0x20) & !0x20u8 == port & !0x20u8) by (bit_vector);
    assert((port ^ 0x20) ^ 0x20 == port) by (bit_vector);
}

/// After nine the count starts over: the successor of nine is zero, and every
/// other digit is followed by the next one.
pub proof fn count_wraps_after_nine(count: u8)
    ensures
        successor(9) == 0,
        count < 9 ==> successor(count) == count + 1,
        successor(count) <= 9,
{
}

} // verus!
