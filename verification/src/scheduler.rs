//! The interval scheduler: a state machine that a host drives.
//!
//! The scheduler never prints, notifies or sleeps. It hands the host one
//! [`Action`] at a time; the host carries the action out and reports back
//! with an [`Event`], and the scheduler answers with the next action. Left to
//! itself the cycle has no end: only a request to stop, which comes from
//! outside, leads to [`Action::Halt`].

use crate::durations::{minutes_in, whole_minutes, Durations, Lengths};
use crate::phase::{break_after, rest_after, Phase};
use crate::text::{announcement, announcement_text, app_name, work_done_line};
use vstd::prelude::*;

verus! {

/// What the scheduler is waiting for.
#[derive(Clone, Copy, Debug, PartialEq, Eq, Structural)]
pub enum Stage {
    /// The current interval has yet to be announced to the user.
    Announcing,
    /// The current interval has been announced and is running.
    Sleeping,
    /// A stop was requested; nothing more will be scheduled.
    Stopped,
}

/// How an attempt to notify the user ended.
#[derive(Clone, Copy, Debug, PartialEq, Eq, Structural)]
pub enum NotifyOutcome {
    /// The notifier accepted the notification.
    Delivered,
    /// The notifier failed, or the host has none.
    Failed,
}

/// What the host reports to the scheduler.
#[derive(Clone, Copy, Debug, PartialEq, Eq, Structural)]
pub enum Event {
    /// The announcement was printed and handed to the notifier, which
    /// returned with the given outcome.
    Notified(NotifyOutcome),
    /// The interval's sleep ran to its end.
    Elapsed,
    /// The user asked the timer to stop.
    StopRequested,
}

/// The opening of an interval: its kind and its length.
#[derive(Clone, Copy, Debug, PartialEq, Eq, Structural)]
pub struct Announcement {
    /// The kind of the interval that starts.
    pub phase: Phase,
    /// The length of that interval, in seconds.
    pub seconds: u64,
}

/// What the host is to do next.
#[derive(Clone, Copy, Debug, PartialEq, Eq, Structural)]
pub enum Action {
    /// Print the announcement's console lines and send its notification, then
    /// report [`Event::Notified`].
    Announce(Announcement),
    /// Block for this many seconds, then report [`Event::Elapsed`].
    Sleep {
        /// The full length of the current interval.
        seconds: u64,
    },
    /// Stop driving the scheduler.
    Halt,
}

/// The scheduler's state as mathematical values.
pub struct SchedulerState {
    /// The session's interval lengths, in seconds.
    pub lengths: Lengths,
    /// The counter of completed work intervals.
    pub completed: nat,
    /// The kind of the current interval.
    pub phase: Phase,
    /// What the scheduler is waiting for.
    pub stage: Stage,
}

/// The counter's value after one more work interval: it wraps to zero past
/// the largest value a `u64` holds.
pub open spec fn counter_after(completed: nat) -> nat {
    (completed + 1) % 0x1_0000_0000_0000_0000
}

impl Event {
    /// What to report when an interval's sleep has run to its end: that it
    /// elapsed, or, if the process is no longer meant to run, that a stop is
    /// requested.
    pub open spec fn at_interval_end(running: bool) -> Event {
        if running {
            Event::Elapsed
        } else {
            Event::StopRequested
        }
    }

    /// The report for the end of an interval's sleep, given the value of the
    /// flag that an interrupt clears, read at that moment.
    pub fn interval_end(running: bool) -> (event: Event)
        ensures
            event == Event::at_interval_end(running),
    {
        if running {
            Event::Elapsed
        } else {
            Event::StopRequested
        }
    }
}

impl Announcement {
    /// The minutes shown for the interval: its seconds divided by sixty,
    /// remainder dropped.
    pub open spec fn shown_minutes(self) -> nat {
        minutes_in(self.seconds as nat)
    }

    /// The message of the announcement, which is also the body of its
    /// notification.
    pub open spec fn text(self) -> Seq<char> {
        announcement_text(self.phase, self.shown_minutes())
    }

    /// The console lines of the announcement, in order: a rest is preceded by
    /// the line that closes the work interval before it.
    pub open spec fn console_text(self) -> Seq<Seq<char>> {
        if self.phase.rests() {
            seq!["Pomodoro done"@, self.text()]
        } else {
            seq![self.text()]
        }
    }

    /// The minutes shown for the interval.
    pub fn minutes(&self) -> (minutes: u64)
        ensures
            minutes as nat == self.shown_minutes(),
    {
        whole_minutes(self.seconds)
    }

    /// The message of the announcement.
    pub fn message(&self) -> (text: String)
        ensures
            text@ == self.text(),
    {
        announcement(self.phase, self.seconds)
    }

    /// The title of the notification: the application's name.
    pub fn title(&self) -> (text: String)
        ensures
            text@ == "Yolodoro"@,
    {
        String::from_str(app_name())
    }

    /// The lines to print on the console, in order.
    pub fn console_lines(&self) -> (lines: Vec<String>)
        ensures
            lines@.len() == self.console_text().len(),
            forall|i: int| 0 <= i < lines@.len() ==> (#[trigger] lines@[i])@ == self.console_text()[i],
    {
        let mut lines: Vec<String> = Vec::new();
        if self.phase.is_break() {
            lines.push(String::from_str(work_done_line()));
        }
        lines.push(self.message());
        lines
    }
}

impl SchedulerState {
    /// The state in which a session with the given lengths starts: no work
    /// interval completed, and the first work interval to be announced.
    pub open spec fn initial(lengths: Lengths) -> SchedulerState {
        SchedulerState { lengths, completed: 0, phase: Phase::Working, stage: Stage::Announcing }
    }

    /// What holds of every state a scheduler can be in: the lengths and the
    /// counter fit the machine, and a rest is the one that the counter calls
    /// for.
    pub open spec fn well_formed(self) -> bool {
        &&& self.lengths.representable()
        &&& self.completed <= u64::MAX
        &&& self.phase.rests() ==> self.phase == rest_after(self.completed)
    }

    /// The length of the current interval, in seconds.
    pub open spec fn interval(self) -> nat {
        self.lengths.of(self.phase)
    }

    /// The state in which the interval after the current one is to be
    /// announced. After a work interval the counter goes up by one and the
    /// rest is picked by the new count; after a rest comes work.
    pub open spec fn turned(self) -> SchedulerState {
        if self.phase.rests() {
            SchedulerState { phase: Phase::Working, stage: Stage::Announcing, ..self }
        } else {
            SchedulerState {
                completed: counter_after(self.completed),
                phase: rest_after(counter_after(self.completed)),
                stage: Stage::Announcing,
                ..self
            }
        }
    }

    /// The state that follows `self` on `event`.
    ///
    /// A request to stop ends the schedule from any state, and nothing leaves
    /// the stopped state. While an announcement is pending, the report that it
    /// was made starts the interval, whatever the notifier's outcome. While
    /// an interval runs, the report that it elapsed turns to the next
    /// interval. A report that does not answer the pending action changes
    /// nothing.
    pub open spec fn next(self, event: Event) -> SchedulerState {
        match (self.stage, event) {
            (Stage::Stopped, _) => self,
            (_, Event::StopRequested) => SchedulerState { stage: Stage::Stopped, ..self },
            (Stage::Announcing, Event::Notified(_)) => SchedulerState {
                stage: Stage::Sleeping,
                ..self
            },
            (Stage::Sleeping, Event::Elapsed) => self.turned(),
            _ => self,
        }
    }

    /// The action that the host is to carry out in this state.
    pub open spec fn pending(self) -> Action {
        match self.stage {
            Stage::Announcing => Action::Announce(
                Announcement { phase: self.phase, seconds: self.interval() as u64 },
            ),
            Stage::Sleeping => Action::Sleep { seconds: self.interval() as u64 },
            Stage::Stopped => Action::Halt,
        }
    }
}

/// The scheduler of one session.
#[derive(Clone, Copy, Debug, PartialEq, Eq, Structural)]
pub struct Scheduler {
    durations: Durations,
    completed: u64,
    phase: Phase,
    stage: Stage,
}

impl View for Scheduler {
    type V = SchedulerState;

    closed spec fn view(&self) -> SchedulerState {
        SchedulerState {
            lengths: self.durations@,
            completed: self.completed as nat,
            phase: self.phase,
            stage: self.stage,
        }
    }
}

impl Scheduler {
    #[verifier::type_invariant]
    spec fn rest_matches_counter(self) -> bool {
        self.phase.rests() ==> self.phase == rest_after(self.completed as nat)
    }

    /// A scheduler at the start of a session: the counter at zero, the first
    /// work interval waiting to be announced.
    pub fn new(durations: Durations) -> (scheduler: Scheduler)
        ensures
            scheduler@ == SchedulerState::initial(durations@),
            scheduler@.well_formed(),
    {
        proof {
            durations.lemma_representable();
        }
        Scheduler { durations, completed: 0, phase: Phase::Working, stage: Stage::Announcing }
    }

    /// The session's interval lengths.
    pub fn durations(&self) -> (durations: Durations)
        ensures
            durations@ == self@.lengths,
    {
        self.durations
    }

    /// The number of work intervals completed so far, as the counter holds it.
    pub fn completed(&self) -> (completed: u64)
        ensures
            completed as nat == self@.completed,
    {
        self.completed
    }

    /// The kind of the current interval.
    pub fn phase(&self) -> (phase: Phase)
        ensures
            phase == self@.phase,
    {
        self.phase
    }

    /// What the scheduler is waiting for.
    pub fn stage(&self) -> (stage: Stage)
        ensures
            stage == self@.stage,
    {
        self.stage
    }

    /// Whether a stop was requested.
    pub fn is_stopped(&self) -> (stopped: bool)
        ensures
            stopped == (self@.stage == Stage::Stopped),
    {
        match self.stage {
            Stage::Stopped => true,
            _ => false,
        }
    }

    /// The action that the host is to carry out now.
    pub fn pending(&self) -> (action: Action)
        ensures
            action == self@.pending(),
            self@.well_formed(),
    {
        proof {
            use_type_invariant(self);
            self.durations.lemma_representable();
        }
        match self.stage {
            Stage::Announcing => Action::Announce(
                Announcement { phase: self.phase, seconds: self.durations.length_of(self.phase) },
            ),
            Stage::Sleeping => Action::Sleep { seconds: self.durations.length_of(self.phase) },
            Stage::Stopped => Action::Halt,
        }
    }

    /// Takes in what the host reports and answers with the action to carry
    /// out next.
    ///
    /// Once the pending announcement is reported as made, the interval starts
    /// and the answer is to sleep for its full length; how the notifier ended
    /// plays no part. Once the sleep is reported as elapsed, the scheduler
    /// turns to the next interval and the answer is to announce it: after
    /// work, the counter goes up by one, wrapping past its largest value, and
    /// a rest follows, long if the new count is a multiple of four and short
    /// otherwise; after a rest, work follows. A request to stop is answered
    /// with [`Action::Halt`], as is everything after it. Any other report
    /// changes nothing and is answered with the action that is still pending.
    pub fn step(&mut self, event: Event) -> (action: Action)
        ensures
            final(self)@ == old(self)@.next(event),
            final(self)@.well_formed(),
            action == final(self)@.pending(),
    {
        proof {
            use_type_invariant(&*self);
            self.durations.lemma_representable();
        }
        match (self.stage, event) {
            (Stage::Stopped, _) => {},
            (_, Event::StopRequested) => {
                self.stage = Stage::Stopped;
            },
            (Stage::Announcing, Event::Notified(_)) => {
                self.stage = Stage::Sleeping;
            },
            (Stage::Sleeping, Event::Elapsed) => {
                if self.phase.is_break() {
                    self.phase = Phase::Working;
                } else {
                    self.completed = self.completed.wrapping_add(1);
                    self.phase = break_after(self.completed);
                }
                self.stage = Stage::Announcing;
            },
            _ => {},
        }
        self.pending()
    }
}

} // verus!
