//! Writing a 16-bit value into an EEPROM register.
//!
//! An EEPROM cell only takes a new value once it reads as erased. A write is
//! therefore a fixed sequence: write zero, let the chip settle, write the
//! value, let the chip settle again. The sequence is kept here as a small
//! state machine: it names the action that is due, and moves on when told
//! that the action succeeded. Performing the action is left to the caller.

use vstd::prelude::*;
use crate::transfer::WordWrite;
use crate::types::Error;

verus! {

/// The value an EEPROM cell must hold before it takes a new one.
pub const ERASED: u16 = 0;

/// One thing for the caller to do on behalf of an EEPROM write.
#[derive(Debug, Clone, Copy, PartialEq, Eq, Structural)]
pub enum Action {
    /// Perform this bus write.
    Write(WordWrite),
    /// Block for this many milliseconds; this cannot fail.
    Delay { ms: u8 },
}

/// How far an EEPROM write has come.
#[derive(Debug, Clone, Copy, PartialEq, Eq, Structural)]
pub enum Stage {
    /// The erasing write is due.
    Erase,
    /// The delay after the erasing write is due.
    EraseSettle,
    /// The write of the value is due.
    Program,
    /// The delay after the write of the value is due.
    ProgramSettle,
    /// Nothing is due: the value has been written.
    Done,
}

impl Stage {
    /// How many actions of the write have succeeded when this stage is
    /// reached.
    pub open spec fn index(self) -> nat {
        match self {
            Stage::Erase => 0,
            Stage::EraseSettle => 1,
            Stage::Program => 2,
            Stage::ProgramSettle => 3,
            Stage::Done => 4,
        }
    }

    /// The stage that follows once the due action has succeeded; the last
    /// stage follows itself.
    pub open spec fn next(self) -> Stage {
        match self {
            Stage::Erase => Stage::EraseSettle,
            Stage::EraseSettle => Stage::Program,
            Stage::Program => Stage::ProgramSettle,
            Stage::ProgramSettle => Stage::Done,
            Stage::Done => Stage::Done,
        }
    }
}

/// An EEPROM write in progress.
#[derive(Debug, Clone, Copy, PartialEq, Eq, Structural)]
pub struct EepromWrite {
    /// Bus address of the device.
    pub address: u8,
    /// Location of the EEPROM register.
    pub register: u8,
    /// The value to store.
    pub value: u16,
    /// How long the chip is given to settle after each write.
    pub delay_ms: u8,
    /// How far the write has come.
    pub stage: Stage,
}

impl EepromWrite {
    /// A write of `value` into `register` of which nothing has been done yet.
    pub open spec fn start(address: u8, register: u8, value: u16, delay_ms: u8) -> EepromWrite {
        EepromWrite { address, register, value, delay_ms, stage: Stage::Erase }
    }

    /// The whole write, action by action: erase the register, let the chip
    /// settle, write the value to the same register, let the chip settle.
    pub open spec fn plan(self) -> Seq<Action> {
        seq![
            Action::Write(
                WordWrite { address: self.address, register: self.register, value: ERASED },
            ),
            Action::Delay { ms: self.delay_ms },
            Action::Write(
                WordWrite { address: self.address, register: self.register, value: self.value },
            ),
            Action::Delay { ms: self.delay_ms },
        ]
    }

    /// Whether every action of the write has succeeded.
    pub open spec fn complete(self) -> bool {
        self.stage == Stage::Done
    }

    /// The action that is due, or `None` once the write is complete.
    pub open spec fn due(self) -> Option<Action> {
        if self.complete() {
            None
        } else {
            Some(self.plan()[self.stage.index() as int])
        }
    }

    /// The write after its due action has succeeded.
    pub open spec fn advanced(self) -> EepromWrite {
        EepromWrite { stage: self.stage.next(), ..self }
    }

    /// The actions the caller is asked for when `outcomes` tells, action by
    /// action, whether each succeeded: everything up to the end of the
    /// write, or up to and including the first action that failed, or as
    /// far as the outcomes reach.
    pub open spec fn issued(self, outcomes: Seq<bool>) -> Seq<Action>
        decreases outcomes.len(),
    {
        if outcomes.len() == 0 || self.complete() {
            Seq::empty()
        } else if outcomes[0] {
            seq![self.due()->0] + self.advanced().issued(outcomes.drop_first())
        } else {
            seq![self.due()->0]
        }
    }

    /// Where the write stands after `outcomes`: `None` when an action
    /// failed, which abandons the write.
    pub open spec fn after(self, outcomes: Seq<bool>) -> Option<EepromWrite>
        decreases outcomes.len(),
    {
        if outcomes.len() == 0 || self.complete() {
            Some(self)
        } else if outcomes[0] {
            self.advanced().after(outcomes.drop_first())
        } else {
            None
        }
    }

    /// Begins a write of `value` into `register` of the device at `address`,
    /// with `delay_ms` milliseconds for the chip to settle after each write.
    pub fn new(address: u8, register: u8, value: u16, delay_ms: u8) -> (write: EepromWrite)
        ensures
            write == EepromWrite::start(address, register, value, delay_ms),
    {
        EepromWrite { address, register, value, delay_ms, stage: Stage::Erase }
    }

    /// The action to perform next, or `None` once the write is complete.
    pub fn pending(&self) -> (action: Option<Action>)
        ensures
            action == self.due(),
    {
        match self.stage {
            Stage::Erase => Some(
                Action::Write(
                    WordWrite { address: self.address, register: self.register, value: ERASED },
                ),
            ),
            Stage::Program => Some(
                Action::Write(
                    WordWrite { address: self.address, register: self.register, value: self.value },
                ),
            ),
            Stage::EraseSettle | Stage::ProgramSettle => Some(Action::Delay { ms: self.delay_ms }),
            Stage::Done => None,
        }
    }

    /// Whether the write is complete.
    pub fn is_complete(&self) -> (done: bool)
        ensures
            done == self.complete(),
    {
        match self.stage {
            Stage::Done => true,
            _ => false,
        }
    }

    /// Takes in the outcome of the pending action.
    ///
    /// On success the write moves on to its next stage. On failure the
    /// write is abandoned and the bus's error is handed back, wrapped.
    pub fn step<E>(self, outcome: Result<(), E>) -> (next: Result<EepromWrite, Error<E>>)
        ensures
            outcome is Ok ==> next == Ok::<EepromWrite, Error<E>>(self.advanced()),
            outcome matches Err(e) ==> next == Err::<EepromWrite, Error<E>>(Error::BusError(e)),
    {
        match outcome {
            Ok(()) => {
                let stage = match self.stage {
                    Stage::Erase => Stage::EraseSettle,
                    Stage::EraseSettle => Stage::Program,
                    Stage::Program => Stage::ProgramSettle,
                    Stage::ProgramSettle => Stage::Done,
                    Stage::Done => Stage::Done,
                };
                Ok(
                    EepromWrite {
                        address: self.address,
                        register: self.register,
                        value: self.value,
                        delay_ms: self.delay_ms,
                        stage,
                    },
                )
            },
            Err(e) => Err(Error::BusError(e)),
        }
    }
}

/// Whether the first `n` outcomes are there and are all successes.
pub open spec fn all_succeed(outcomes: Seq<bool>, n: nat) -> bool {
    n <= outcomes.len() && forall|i: int| 0 <= i < n ==> outcomes[i]
}

/// A fresh write comes to completion exactly when its first four actions
/// all succeed, and what was asked of the caller is then the plan, no more
/// and no less: two writes to the one register, zero first and the value
/// second, each followed by a settling delay.
pub proof fn completed_write_follows_plan(write: EepromWrite, outcomes: Seq<bool>)
    requires
        write.stage == Stage::Erase,
    ensures
        (write.after(outcomes) matches Some(end) && end.complete()) <==> all_succeed(outcomes, 4),
        all_succeed(outcomes, 4) ==> write.issued(outcomes) == write.plan(),
{
    reveal_with_fuel(EepromWrite::after, 5);
    reveal_with_fuel(EepromWrite::issued, 5);
    lemma_first_outcomes(outcomes);
    if all_succeed(outcomes, 4) {
        assert(write.issued(outcomes) =~= write.plan());
    }
}

/// Whatever the outcomes, a fresh write never asks for anything that is not
/// in its plan, nor for anything out of order: what is issued is the plan
/// up to some point.
pub proof fn issued_is_prefix_of_plan(write: EepromWrite, outcomes: Seq<bool>)
    requires
        write.stage == Stage::Erase,
    ensures
        write.issued(outcomes).len() <= 4,
        write.issued(outcomes) == write.plan().take(write.issued(outcomes).len() as int),
{
    reveal_with_fuel(EepromWrite::issued, 5);
    assert(write.issued(outcomes) =~= write.plan().take(write.issued(outcomes).len() as int));
}

/// A failed action ends the write on the spot: nothing is asked of the
/// caller after it.
pub proof fn failure_abandons_write(write: EepromWrite, outcomes: Seq<bool>, failed: int)
    requires
        write.stage == Stage::Erase,
        0 <= failed < outcomes.len(),
        failed < 4,
        !outcomes[failed],
        forall|i: int| 0 <= i < failed ==> outcomes[i],
    ensures
        write.after(outcomes) is None,
        write.issued(outcomes) == write.plan().take(failed + 1),
{
    reveal_with_fuel(EepromWrite::after, 5);
    reveal_with_fuel(EepromWrite::issued, 5);
    lemma_first_outcomes(outcomes);
    assert(write.issued(outcomes) =~= write.plan().take(failed + 1));
}

/// Dropping the first outcome shifts every later one down by one place.
pub(crate) proof fn lemma_first_outcomes(outcomes: Seq<bool>)
    ensures
        outcomes.len() >= 2 ==> outcomes.drop_first()[0] == outcomes[1],
        outcomes.len() >= 3 ==> outcomes.drop_first().drop_first()[0] == outcomes[2],
        outcomes.len() >= 4 ==> outcomes.drop_first().drop_first().drop_first()[0] == outcomes[3],
        all_succeed(outcomes, 4) <==> outcomes.len() >= 4 && outcomes[0] && outcomes[1]
            && outcomes[2] && outcomes[3],
{
}

} // verus!
