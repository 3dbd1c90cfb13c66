//! The counter: what happens on an edge of the button's line, and at start-up.
//!
//! One press of the button makes two edges on its line, one when it goes down
//! and one when it comes up. The counter takes the first for the press's
//! beginning and acts on the second.

use vstd::prelude::*;
use crate::eeprom::{EepromAddress, Operation, Transfer};
use crate::registers::{Register, Request, STATUS_LINE};
use crate::segments::{glyph, output_pattern, Segments};

verus! {

/// Which edge of a press the counter waits for.
#[derive(Clone, Copy, Debug, PartialEq, Eq, Structural)]
pub enum EdgeState {
    /// No press is going on: the next edge begins one.
    ArmedWaitingForFirstEdge,
    /// A press has begun: the next edge completes it.
    ArmedWaitingForSecondEdge,
}

impl EdgeState {
    /// The other state.
    pub open spec fn spec_flipped(self) -> EdgeState {
        match self {
            EdgeState::ArmedWaitingForFirstEdge => EdgeState::ArmedWaitingForSecondEdge,
            EdgeState::ArmedWaitingForSecondEdge => EdgeState::ArmedWaitingForFirstEdge,
        }
    }

    /// The other state.
    #[verifier::when_used_as_spec(spec_flipped)]
    pub fn flipped(self) -> (other: EdgeState)
        ensures
            other == self.spec_flipped(),
    {
        match self {
            EdgeState::ArmedWaitingForFirstEdge => EdgeState::ArmedWaitingForSecondEdge,
            EdgeState::ArmedWaitingForSecondEdge => EdgeState::ArmedWaitingForFirstEdge,
        }
    }
}

/// The count that follows `count`: one more, and zero after nine.
pub open spec fn spec_successor(count: u8) -> u8 {
    ((count + 1) % 10) as u8
}

/// The count that follows `count`: one more, and zero after nine.
#[verifier::when_used_as_spec(spec_successor)]
pub fn successor(count: u8) -> (next: u8)
    ensures
        next == (count + 1) % 10,
        next == spec_successor(count),
{
    ((count as u16 + 1) % 10) as u8
}

/// One thing a routine asks of its driver.
#[derive(Clone, Copy, Debug, PartialEq, Eq, Structural)]
pub enum Action {
    /// Carry out the request and answer with what came of it.
    Bus(Request),
    /// Carry the transfer through to its end and answer with its data.
    Eeprom(Transfer),
}

/// What a routine is for.
#[derive(Clone, Copy, Debug, PartialEq, Eq, Structural)]
pub enum Purpose {
    /// Show the persisted count again after start-up.
    Restore,
    /// Count a completed press.
    Advance,
}

/// How far a routine has come. Each stage but the first and the last names the
/// action that is outstanding.
#[derive(Clone, Copy, Debug, PartialEq, Eq, Structural)]
pub enum Stage {
    /// Nothing was asked yet.
    Start,
    /// The status indicator's port is being read.
    Sampling,
    /// The status indicator's port is being written.
    Toggling,
    /// The persisted count is being read.
    Reading,
    /// The new count is being written.
    Writing,
    /// The glyph is being put on the display.
    Showing,
    /// The routine is over.
    Done,
}

impl Stage {
    /// A bound on the actions that are still to come.
    pub open spec fn steps(self) -> nat {
        match self {
            Stage::Start => 6,
            Stage::Sampling => 5,
            Stage::Toggling => 4,
            Stage::Reading => 3,
            Stage::Writing => 2,
            Stage::Showing => 1,
            Stage::Done => 0,
        }
    }
}

/// One run of the counter's work, which the driver carries out action by action.
#[derive(Clone, Copy, Debug, PartialEq, Eq, Structural)]
pub struct Routine {
    /// What the routine is for.
    pub purpose: Purpose,
    /// Where the count persists.
    pub number: EepromAddress,
    /// The action that is outstanding.
    pub stage: Stage,
    /// The count to show, once it is known; 0 until then.
    pub count: u8,
}

impl Routine {
    /// A routine of which nothing was asked yet.
    pub open spec fn begin(purpose: Purpose, number: EepromAddress) -> Routine {
        Routine { purpose, number, stage: Stage::Start, count: 0 }
    }

    /// This routine at another stage.
    pub open spec fn at(self, stage: Stage) -> Routine {
        Routine { stage, ..self }
    }

    /// The action that reads the persisted count.
    pub open spec fn fetch(self) -> Action {
        Action::Eeprom(Transfer::begin(self.number.0, Operation::Read))
    }

    /// The action that shows `count`.
    pub open spec fn show(count: u8) -> Action {
        Action::Bus(Request::Store(Register::PortD, output_pattern(glyph(count as int))))
    }

    /// The routine after the answer `reply` to its outstanding action, and the
    /// action it asks for next; `None` once the routine is over.
    pub open spec fn next(self, reply: u8) -> (Routine, Option<Action>) {
        match self.stage {
            Stage::Start => match self.purpose {
                Purpose::Restore => (self.at(Stage::Reading), Some(self.fetch())),
                Purpose::Advance => (
                    self.at(Stage::Sampling),
                    Some(Action::Bus(Request::Load(Register::PortB))),
                ),
            },
            Stage::Sampling => (
                self.at(Stage::Toggling),
                Some(Action::Bus(Request::Store(Register::PortB, reply ^ STATUS_LINE))),
            ),
            Stage::Toggling => (self.at(Stage::Reading), Some(self.fetch())),
            Stage::Reading => match self.purpose {
                Purpose::Restore => (
                    Routine { stage: Stage::Showing, count: reply, ..self },
                    Some(Self::show(reply)),
                ),
                Purpose::Advance => (
                    Routine { stage: Stage::Writing, count: successor(reply), ..self },
                    Some(
                        Action::Eeprom(
                            Transfer::begin(self.number.0, Operation::Write(successor(reply))),
                        ),
                    ),
                ),
            },
            Stage::Writing => (self.at(Stage::Showing), Some(Self::show(self.count))),
            Stage::Showing => (self.at(Stage::Done), None),
            Stage::Done => (self, None),
        }
    }

    /// Takes the answer to the outstanding action and asks for the next one.
    pub fn advance(&mut self, reply: u8) -> (action: Option<Action>)
        ensures
            (*final(self), action) == old(self).next(reply),
    {
        match self.stage {
            Stage::Start => match self.purpose {
                Purpose::Restore => {
                    self.stage = Stage::Reading;
                    Some(Action::Eeprom(self.number.read()))
                },
                Purpose::Advance => {
                    self.stage = Stage::Sampling;
                    Some(Action::Bus(Request::Load(Register::PortB)))
                },
            },
            Stage::Sampling => {
                self.stage = Stage::Toggling;
                Some(Action::Bus(Request::Store(Register::PortB, reply ^ STATUS_LINE)))
            },
            Stage::Toggling => {
                self.stage = Stage::Reading;
                Some(Action::Eeprom(self.number.read()))
            },
            Stage::Reading => match self.purpose {
                Purpose::Restore => {
                    self.stage = Stage::Showing;
                    self.count = reply;
                    Some(Action::Bus(Segments::from_u8(reply).display()))
                },
                Purpose::Advance => {
                    let next = successor(reply);
                    self.stage = Stage::Writing;
                    self.count = next;
                    Some(Action::Eeprom(self.number.write(next)))
                },
            },
            Stage::Writing => {
                self.stage = Stage::Showing;
                Some(Action::Bus(Segments::from_u8(self.count).display()))
            },
            Stage::Showing => {
                self.stage = Stage::Done;
                None
            },
            Stage::Done => None,
        }
    }
}

/// The counter between two runs: which edge it waits for, and where the count persists.
#[derive(Clone, Copy, Debug, PartialEq, Eq, Structural)]
pub struct Counter {
    /// Which edge of a press comes next.
    pub state: EdgeState,
    /// Where the count persists.
    pub number: EepromAddress,
}

impl Counter {
    /// The counter after an edge, and the routine to run for it: none after the
    /// first edge of a press, the one that counts the press after the second.
    pub open spec fn after_edge(self) -> (Counter, Option<Routine>) {
        let then = Counter { state: self.state.flipped(), ..self };
        match then.state {
            EdgeState::ArmedWaitingForSecondEdge => (then, None),
            EdgeState::ArmedWaitingForFirstEdge => (
                then,
                Some(Routine::begin(Purpose::Advance, self.number)),
            ),
        }
    }

    /// A counter as it is after a reset: no press is going on.
    pub fn new(number: EepromAddress) -> (counter: Counter)
        ensures
            counter == (Counter { state: EdgeState::ArmedWaitingForFirstEdge, number }),
    {
        Counter { state: EdgeState::ArmedWaitingForFirstEdge, number }
    }

    /// The routine to run once at start-up, before edges are listened for: it
    /// shows the persisted count again.
    pub fn boot(&self) -> (routine: Routine)
        ensures
            routine == Routine::begin(Purpose::Restore, self.number),
    {
        Routine { purpose: Purpose::Restore, number: self.number, stage: Stage::Start, count: 0 }
    }

    /// Takes an edge of the button's line. Gives the routine to run now, if any.
    pub fn on_edge(&mut self) -> (routine: Option<Routine>)
        ensures
            (*final(self), routine) == old(self).after_edge(),
    {
        self.state = self.state.flipped();
        match self.state {
            EdgeState::ArmedWaitingForSecondEdge => None,
            EdgeState::ArmedWaitingForFirstEdge => Some(
                Routine {
                    purpose: Purpose::Advance,
                    number: self.number,
                    stage: Stage::Start,
                    count: 0,
                },
            ),
        }
    }
}

} // verus!
