//! Hardware effects as data.
//!
//! The controller never touches the reader bus, the indicator lines, the
//! auxiliary power rail, the actuator PWM channel or the delay primitive
//! directly: it emits a sequence of `Action` values, and an unverified
//! driver performs them in order. Classifying and counting actions is what
//! the behavioural laws are stated over.

use vstd::prelude::*;

verus! {

/// One hardware effect the driver must perform.
#[derive(Debug, Clone, Copy, PartialEq, Eq)]
pub enum Action {
    /// Issue the wake-up request-for-all on the reader.
    Wake,
    /// Resolve the identifier of the responding card.
    Select,
    /// Open a crypto session for the target block with the sector key.
    Authenticate { block: u8 },
    /// Read one data block of the authenticated sector.
    ReadBlock { block: u8 },
    /// Write one data block of the authenticated sector.
    WriteBlock { block: u8 },
    /// Return the card to its halted state.
    Halt,
    /// Reset the reader's crypto session.
    StopSession,
    /// Enable the auxiliary power rail.
    RailOn,
    /// Disable the auxiliary power rail.
    RailOff,
    /// Toggle the positive (success) indicator.
    TogglePositive,
    /// Toggle the negative (failure) indicator.
    ToggleNegative,
    /// Command the actuator position as a PWM duty cycle.
    SetDuty { duty: u16 },
    /// Enable the PWM output driving the actuator.
    EnablePwm,
    /// Block for the given number of milliseconds.
    DelayMs { ms: u32 },
}

/// A family of actions the laws count occurrences of.
pub enum ActionClass {
    /// Anything that moves the actuator or its power: duty commands, PWM
    /// enable, and the auxiliary rail.
    Actuator,
    PositiveToggle,
    NegativeToggle,
    HaltCmd,
    StopCmd,
    ReadCmd,
    WriteCmd,
    WakeCmd,
    SelectCmd,
    AuthCmd,
}

pub open spec fn in_class(a: Action, c: ActionClass) -> bool {
    match c {
        ActionClass::Actuator => a is SetDuty || a is EnablePwm || a is RailOn || a is RailOff,
        ActionClass::PositiveToggle => a is TogglePositive,
        ActionClass::NegativeToggle => a is ToggleNegative,
        ActionClass::HaltCmd => a is Halt,
        ActionClass::StopCmd => a is StopSession,
        ActionClass::ReadCmd => a is ReadBlock,
        ActionClass::WriteCmd => a is WriteBlock,
        ActionClass::WakeCmd => a is Wake,
        ActionClass::SelectCmd => a is Select,
        ActionClass::AuthCmd => a is Authenticate,
    }
}

/// How many actions of the given class a sequence holds.
pub open spec fn count_class(s: Seq<Action>, c: ActionClass) -> nat
    decreases s.len(),
{
    if s.len() == 0 {
        0
    } else {
        count_class(s.drop_last(), c) + if in_class(s.last(), c) {
            1nat
        } else {
            0nat
        }
    }
}

/// The duty cycles commanded along a sequence, in order.
pub open spec fn duties_of(s: Seq<Action>) -> Seq<u16>
    decreases s.len(),
{
    if s.len() == 0 {
        Seq::empty()
    } else {
        duties_of(s.drop_last()) + if s.last() is SetDuty {
            seq![s.last()->SetDuty_duty]
        } else {
            Seq::empty()
        }
    }
}

/// Counting distributes over concatenation.
pub proof fn lemma_count_class_concat(a: Seq<Action>, b: Seq<Action>, c: ActionClass)
    ensures
        count_class(a + b, c) == count_class(a, c) + count_class(b, c),
    decreases b.len(),
{
    if b.len() == 0 {
        assert(a + b =~= a);
    } else {
        assert((a + b).drop_last() =~= a + b.drop_last());
        assert((a + b).last() == b.last());
        lemma_count_class_concat(a, b.drop_last(), c);
    }
}

/// Collecting duty commands distributes over concatenation.
pub proof fn lemma_duties_concat(a: Seq<Action>, b: Seq<Action>)
    ensures
        duties_of(a + b) == duties_of(a) + duties_of(b),
    decreases b.len(),
{
    if b.len() == 0 {
        assert(a + b =~= a);
        assert(duties_of(a) + duties_of(b) =~= duties_of(a));
    } else {
        assert((a + b).drop_last() =~= a + b.drop_last());
        assert((a + b).last() == b.last());
        lemma_duties_concat(a, b.drop_last());
        assert(duties_of(a) + duties_of(b) =~= (duties_of(a) + duties_of(b.drop_last()))
            + if b.last() is SetDuty {
                seq![b.last()->SetDuty_duty]
            } else {
                Seq::<u16>::empty()
            });
    }
}

} // verus!
