//! The three interval lengths of a session.
//!
//! A session is configured once, before the timer starts, with the length of a
//! work interval, of a short rest and of a long rest. The lengths are held in
//! whole seconds and never change afterwards. On the command line they are
//! given in whole minutes; what is shown to the user is always whole minutes
//! again, with any remainder dropped.

use crate::phase::Phase;
use vstd::prelude::*;

verus! {

/// Seconds in one minute.
pub const SECONDS_PER_MINUTE: u64 = 60;

/// The work interval, in minutes, when none is given.
pub const DEFAULT_WORK_MINUTES: u64 = 24;

/// The short rest, in minutes, when none is given.
pub const DEFAULT_SHORT_PAUSE_MINUTES: u64 = 5;

/// The long rest, in minutes, when none is given.
pub const DEFAULT_LONG_PAUSE_MINUTES: u64 = 20;

/// The whole minutes contained in `seconds`; any remainder is dropped.
pub open spec fn minutes_in(seconds: nat) -> nat {
    seconds / 60
}

/// The seconds that make up `minutes` whole minutes.
pub open spec fn seconds_in(minutes: nat) -> nat {
    minutes * 60
}

/// The number of minutes shown for an interval of `seconds`: the quotient of
/// a truncating division by sixty, so that ninety seconds show as one minute.
pub fn whole_minutes(seconds: u64) -> (minutes: u64)
    ensures
        minutes as nat == minutes_in(seconds as nat),
{
    seconds / SECONDS_PER_MINUTE
}

/// A length given in whole minutes is shown as given: turning minutes into
/// seconds and showing those seconds in minutes gives the minutes back.
pub proof fn lemma_minutes_shown_as_given(minutes: nat)
    ensures
        minutes_in(seconds_in(minutes)) == minutes,
{
}

/// What is shown for a length never exceeds it: the minutes shown, taken in
/// seconds, are at most the seconds of the interval, and less than a minute
/// short of them.
pub proof fn lemma_minutes_truncate(seconds: nat)
    ensures
        seconds_in(minutes_in(seconds)) <= seconds < seconds_in(minutes_in(seconds)) + 60,
{
}

/// The three lengths of a session as mathematical values, in seconds.
pub struct Lengths {
    /// Length of a work interval.
    pub work: nat,
    /// Length of a short rest.
    pub short_break: nat,
    /// Length of a long rest.
    pub long_break: nat,
}

impl Lengths {
    /// The length of an interval of the given kind.
    pub open spec fn of(self, phase: Phase) -> nat {
        match phase {
            Phase::Working => self.work,
            Phase::ShortBreak => self.short_break,
            Phase::LongBreak => self.long_break,
        }
    }

    /// The lengths that three numbers of whole minutes stand for.
    pub open spec fn of_minutes(work: nat, short_pause: nat, long_pause: nat) -> Lengths {
        Lengths {
            work: seconds_in(work),
            short_break: seconds_in(short_pause),
            long_break: seconds_in(long_pause),
        }
    }

    /// The minutes shown for an interval of the given kind.
    pub open spec fn shown_minutes(self, phase: Phase) -> nat {
        minutes_in(self.of(phase))
    }

    /// Whether each length is a number of seconds that a `u64` can hold.
    pub open spec fn representable(self) -> bool {
        &&& self.work <= u64::MAX
        &&& self.short_break <= u64::MAX
        &&& self.long_break <= u64::MAX
    }

    /// The first kind of interval, in the order work, short rest, long rest,
    /// whose length cannot be held; `None` when all three can.
    pub open spec fn first_too_long(self) -> Option<Phase> {
        if self.work > u64::MAX {
            Some(Phase::Working)
        } else if self.short_break > u64::MAX {
            Some(Phase::ShortBreak)
        } else if self.long_break > u64::MAX {
            Some(Phase::LongBreak)
        } else {
            None
        }
    }
}

/// For a session configured in whole minutes, the minutes shown for each kind
/// of interval are the minutes that were given for it.
pub proof fn lemma_configured_minutes_are_shown(work: nat, short_pause: nat, long_pause: nat)
    ensures
        Lengths::of_minutes(work, short_pause, long_pause).shown_minutes(Phase::Working) == work,
        Lengths::of_minutes(work, short_pause, long_pause).shown_minutes(Phase::ShortBreak)
            == short_pause,
        Lengths::of_minutes(work, short_pause, long_pause).shown_minutes(Phase::LongBreak)
            == long_pause,
{
}

/// Why a configuration was turned down.
#[derive(Clone, Copy, Debug, PartialEq, Eq, Structural)]
pub enum ConfigError {
    /// The length given for this kind of interval, taken in seconds, exceeds
    /// what the timer can count.
    TooLong(Phase),
}

/// The three interval lengths of one session, fixed when the value is made.
#[derive(Clone, Copy, Debug, PartialEq, Eq, Structural)]
pub struct Durations {
    work: u64,
    short_break: u64,
    long_break: u64,
}

impl View for Durations {
    type V = Lengths;

    closed spec fn view(&self) -> Lengths {
        Lengths {
            work: self.work as nat,
            short_break: self.short_break as nat,
            long_break: self.long_break as nat,
        }
    }
}

impl Durations {
    /// Every value of this type holds lengths that fit the machine's counter.
    pub proof fn lemma_representable(self)
        ensures
            self@.representable(),
    {
    }

    /// Two values with the same lengths are the same value.
    pub proof fn lemma_view_determines(self, other: Durations)
        requires
            self@ == other@,
        ensures
            self == other,
    {
    }

    /// A session with the given lengths in seconds. A length of zero is
    /// accepted: such an interval ends as soon as it starts.
    pub fn from_seconds(work: u64, short_break: u64, long_break: u64) -> (durations: Durations)
        ensures
            durations@ == (Lengths {
                work: work as nat,
                short_break: short_break as nat,
                long_break: long_break as nat,
            }),
    {
        Durations { work, short_break, long_break }
    }

    /// A session with the given lengths in whole minutes, each turned into
    /// seconds by multiplying by sixty. A length whose seconds exceed the
    /// counter is turned down, and the error names the first such length.
    pub fn from_minutes(work: u64, short_pause: u64, long_pause: u64) -> (result: Result<
        Durations,
        ConfigError,
    >)
        ensures
            match Lengths::of_minutes(work as nat, short_pause as nat, long_pause as nat)
                .first_too_long() {
                Some(phase) => result == Err::<Durations, ConfigError>(ConfigError::TooLong(phase)),
                None => result is Ok && result->Ok_0@ == Lengths::of_minutes(
                    work as nat,
                    short_pause as nat,
                    long_pause as nat,
                ),
            },
    {
        let work_seconds: u64 = match work.checked_mul(SECONDS_PER_MINUTE) {
            Some(seconds) => seconds,
            None => { return Err(ConfigError::TooLong(Phase::Working)); },
        };
        let short_seconds: u64 = match short_pause.checked_mul(SECONDS_PER_MINUTE) {
            Some(seconds) => seconds,
            None => { return Err(ConfigError::TooLong(Phase::ShortBreak)); },
        };
        let long_seconds: u64 = match long_pause.checked_mul(SECONDS_PER_MINUTE) {
            Some(seconds) => seconds,
            None => { return Err(ConfigError::TooLong(Phase::LongBreak)); },
        };
        Ok(Durations { work: work_seconds, short_break: short_seconds, long_break: long_seconds })
    }

    /// Length of a work interval, in seconds.
    pub fn work(&self) -> (seconds: u64)
        ensures
            seconds as nat == self@.work,
    {
        self.work
    }

    /// Length of a short rest, in seconds.
    pub fn short_break(&self) -> (seconds: u64)
        ensures
            seconds as nat == self@.short_break,
    {
        self.short_break
    }

    /// Length of a long rest, in seconds.
    pub fn long_break(&self) -> (seconds: u64)
        ensures
            seconds as nat == self@.long_break,
    {
        self.long_break
    }

    /// Length of an interval of the given kind, in seconds.
    pub fn length_of(&self, phase: Phase) -> (seconds: u64)
        ensures
            seconds as nat == self@.of(phase),
    {
        match phase {
            Phase::Working => self.work,
            Phase::ShortBreak => self.short_break,
            Phase::LongBreak => self.long_break,
        }
    }

    /// The minutes shown for an interval of the given kind.
    pub fn minutes_of(&self, phase: Phase) -> (minutes: u64)
        ensures
            minutes as nat == self@.shown_minutes(phase),
    {
        whole_minutes(self.length_of(phase))
    }
}

impl Default for Durations {
    /// Twenty-four minutes of work, five of short rest, twenty of long rest.
    fn default() -> (durations: Durations)
        ensures
            durations@ == Lengths::of_minutes(24, 5, 20),
    {
        Durations {
            work: DEFAULT_WORK_MINUTES * SECONDS_PER_MINUTE,
            short_break: DEFAULT_SHORT_PAUSE_MINUTES * SECONDS_PER_MINUTE,
            long_break: DEFAULT_LONG_PAUSE_MINUTES * SECONDS_PER_MINUTE,
        }
    }
}

} // verus!
