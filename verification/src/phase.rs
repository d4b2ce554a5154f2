//! The kinds of interval, and the rule that picks the rest after each work
//! interval.

use vstd::prelude::*;

verus! {

/// A long rest follows every work interval whose count is a multiple of this.
pub const LONG_BREAK_PERIOD: u64 = 4;

/// The kind of an interval.
#[derive(Clone, Copy, Debug, PartialEq, Eq, Structural)]
pub enum Phase {
    /// A work interval.
    Working,
    /// The rest that follows most work intervals.
    ShortBreak,
    /// The rest that follows every fourth work interval.
    LongBreak,
}

impl Phase {
    /// Whether this is one of the two rests.
    pub open spec fn rests(self) -> bool {
        self != Phase::Working
    }

    /// Whether this is one of the two rests.
    #[verifier::when_used_as_spec(rests)]
    pub fn is_break(self) -> (rest: bool)
        ensures
            rest == self.rests(),
    {
        match self {
            Phase::Working => false,
            Phase::ShortBreak => true,
            Phase::LongBreak => true,
        }
    }
}

/// The rest that follows the work interval which brought the count of
/// completed work intervals to `completed`: long when that count is a multiple
/// of four, short otherwise.
pub open spec fn rest_after(completed: nat) -> Phase {
    if completed % 4 == 0 {
        Phase::LongBreak
    } else {
        Phase::ShortBreak
    }
}

/// Picks the rest for the work interval that was just completed, given the
/// count of completed work intervals including that one.
pub fn break_after(completed: u64) -> (phase: Phase)
    ensures
        phase == rest_after(completed as nat),
        phase.rests(),
{
    if completed % LONG_BREAK_PERIOD == 0 {
        Phase::LongBreak
    } else {
        Phase::ShortBreak
    }
}

} // verus!
