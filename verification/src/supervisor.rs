//! The main stream of the host process: from start-up to exit.
//!
//! The process has two streams of execution. The scheduler runs on one. The
//! other, described here, puts the interrupt handler in place, launches the
//! scheduler, and then watches a single shared flag that the handler clears.
//! Once it sees the flag cleared it ends the process, without waiting for the
//! scheduler to finish what it is doing.
//!
//! Like the scheduler, the supervisor performs nothing itself: it hands the
//! host one [`MainAction`] at a time and is told what came of it.

use crate::text::{exiting_line, handler_refused_line, waiting_line};
use vstd::prelude::*;

verus! {

/// The exit status after an interrupt.
pub const EXIT_INTERRUPTED: i32 = 0;

/// The exit status when the interrupt handler could not be put in place.
pub const EXIT_HANDLER_REFUSED: i32 = 101;

/// The longest pause, in milliseconds, between two readings of the flag: an
/// interrupt is seen, and the process ended, within this time.
pub const POLL_PAUSE_MILLIS: u64 = 50;

/// Where the main stream stands.
#[derive(Clone, Copy, Debug, PartialEq, Eq, Structural)]
pub enum MainStage {
    /// The interrupt handler has yet to be put in place.
    Installing,
    /// The handler is in place; the scheduler has yet to be launched.
    Launching,
    /// The scheduler runs; the flag is being watched.
    Waiting,
    /// The flag was seen cleared: the process ends in good order.
    Interrupted,
    /// The handler could not be put in place: the process ends in failure,
    /// and the scheduler was never launched.
    Refused,
}

/// What the host reports to the supervisor.
#[derive(Clone, Copy, Debug, PartialEq, Eq, Structural)]
pub enum MainEvent {
    /// The interrupt handler is in place.
    HandlerInstalled,
    /// The interrupt handler could not be put in place.
    HandlerRefused,
    /// The scheduler was launched on a stream of its own.
    SchedulerLaunched,
    /// The shared flag was read.
    FlagRead {
        /// The value read: `false` once an interrupt has come in.
        running: bool,
    },
}

/// What the host is to do next on the main stream.
#[derive(Clone, Copy, Debug, PartialEq, Eq, Structural)]
pub enum MainAction {
    /// Set the shared flag and register the interrupt handler, whose only
    /// effect is to clear the flag; then report [`MainEvent::HandlerInstalled`]
    /// or [`MainEvent::HandlerRefused`].
    InstallHandler,
    /// Print the action's console line and launch the scheduler on a stream
    /// of its own, detached; then report [`MainEvent::SchedulerLaunched`].
    Launch,
    /// Pause for at most this long, read the shared flag, and report
    /// [`MainEvent::FlagRead`].
    Poll {
        /// The longest pause before the reading, in milliseconds.
        pause_millis: u64,
    },
    /// Print the action's console line and end the process with this status,
    /// without waiting for the scheduler.
    Exit {
        /// The exit status of the process.
        status: i32,
    },
}

impl MainStage {
    /// Whether the main stream has come to its end.
    pub open spec fn ended(self) -> bool {
        self == MainStage::Interrupted || self == MainStage::Refused
    }

    /// The stage that follows `self` on `event`.
    ///
    /// The handler is installed first, and the scheduler is launched only
    /// once it is in place. From then on each reading of the flag either
    /// keeps the main stream waiting or, the first time the flag is seen
    /// cleared, ends it. A report that does not answer the pending action
    /// changes nothing, and nothing leaves a stage in which the stream has
    /// ended.
    pub open spec fn next(self, event: MainEvent) -> MainStage {
        match (self, event) {
            (MainStage::Installing, MainEvent::HandlerInstalled) => MainStage::Launching,
            (MainStage::Installing, MainEvent::HandlerRefused) => MainStage::Refused,
            (MainStage::Launching, MainEvent::SchedulerLaunched) => MainStage::Waiting,
            (MainStage::Waiting, MainEvent::FlagRead { running }) => if running {
                MainStage::Waiting
            } else {
                MainStage::Interrupted
            },
            _ => self,
        }
    }

    /// The action that the host is to carry out at this stage.
    pub open spec fn pending(self) -> MainAction {
        match self {
            MainStage::Installing => MainAction::InstallHandler,
            MainStage::Launching => MainAction::Launch,
            MainStage::Waiting => MainAction::Poll { pause_millis: 50 },
            MainStage::Interrupted => MainAction::Exit { status: 0 },
            MainStage::Refused => MainAction::Exit { status: 101 },
        }
    }
}

impl MainAction {
    /// The line that goes with the action, if it has one: the waiting line
    /// with the launch, the closing line with an exit in good order, the
    /// error line with an exit in failure.
    pub open spec fn line_text(self) -> Option<Seq<char>> {
        match self {
            MainAction::Launch => Some("Waiting for Ctrl-C..."@),
            MainAction::Exit { status } => if status == 0 {
                Some("Got it! Exiting..."@)
            } else {
                Some("Error setting Ctrl-C handler"@)
            },
            _ => None,
        }
    }

    /// The line to show with the action, if it has one.
    pub fn console_line(&self) -> (line: Option<String>)
        ensures
            match self.line_text() {
                Some(text) => line is Some && line->Some_0@ == text,
                None => line is None,
            },
    {
        match self {
            MainAction::Launch => Some(String::from_str(waiting_line())),
            MainAction::Exit { status } => if *status == EXIT_INTERRUPTED {
                Some(String::from_str(exiting_line()))
            } else {
                Some(String::from_str(handler_refused_line()))
            },
            _ => None,
        }
    }

    /// The status with which the process is to end, if the action ends it.
    pub fn exit_status(&self) -> (status: Option<i32>)
        ensures
            status == (match *self {
                MainAction::Exit { status } => Some(status),
                _ => None,
            }),
    {
        match self {
            MainAction::Exit { status } => Some(*status),
            _ => None,
        }
    }
}

/// The supervisor of one process.
#[derive(Clone, Copy, Debug, PartialEq, Eq, Structural)]
pub struct Supervisor {
    stage: MainStage,
}

impl View for Supervisor {
    type V = MainStage;

    closed spec fn view(&self) -> MainStage {
        self.stage
    }
}

impl Supervisor {
    /// A supervisor at process start: the handler is to be installed.
    pub fn new() -> (supervisor: Supervisor)
        ensures
            supervisor@ == MainStage::Installing,
    {
        Supervisor { stage: MainStage::Installing }
    }

    /// Where the main stream stands.
    pub fn stage(&self) -> (stage: MainStage)
        ensures
            stage == self@,
    {
        self.stage
    }

    /// The action that the host is to carry out now.
    pub fn pending(&self) -> (action: MainAction)
        ensures
            action == self@.pending(),
    {
        match self.stage {
            MainStage::Installing => MainAction::InstallHandler,
            MainStage::Launching => MainAction::Launch,
            MainStage::Waiting => MainAction::Poll { pause_millis: POLL_PAUSE_MILLIS },
            MainStage::Interrupted => MainAction::Exit { status: EXIT_INTERRUPTED },
            MainStage::Refused => MainAction::Exit { status: EXIT_HANDLER_REFUSED },
        }
    }

    /// Takes in what the host reports and answers with the action to carry
    /// out next.
    pub fn step(&mut self, event: MainEvent) -> (action: MainAction)
        ensures
            final(self)@ == old(self)@.next(event),
            action == final(self)@.pending(),
    {
        match (self.stage, event) {
            (MainStage::Installing, MainEvent::HandlerInstalled) => {
                self.stage = MainStage::Launching;
            },
            (MainStage::Installing, MainEvent::HandlerRefused) => {
                self.stage = MainStage::Refused;
            },
            (MainStage::Launching, MainEvent::SchedulerLaunched) => {
                self.stage = MainStage::Waiting;
            },
            (MainStage::Waiting, MainEvent::FlagRead { running }) => {
                if !running {
                    self.stage = MainStage::Interrupted;
                }
            },
            _ => {},
        }
        self.pending()
    }
}

/// The stage reached from `start` when the events are reported in order.
pub open spec fn main_run(start: MainStage, events: Seq<MainEvent>) -> MainStage
    decreases events.len(),
{
    if events.len() == 0 {
        start
    } else {
        main_run(start, events.drop_last()).next(events.last())
    }
}

/// While the scheduler runs, a single reading of the cleared flag ends the
/// main stream: the next action is to exit with status zero. A reading of the
/// set flag keeps it waiting, with another reading to come after a pause of
/// fifty milliseconds at most.
pub proof fn lemma_flag_decides(running: bool)
    ensures
        MainStage::Waiting.next(MainEvent::FlagRead { running: false }) == MainStage::Interrupted,
        MainStage::Interrupted.pending() == (MainAction::Exit { status: 0 }),
        MainStage::Waiting.next(MainEvent::FlagRead { running: true }) == MainStage::Waiting,
        MainStage::Waiting.pending() == (MainAction::Poll { pause_millis: 50 }),
        MainStage::Waiting.next(MainEvent::FlagRead { running }).ended() <==> !running,
{
}

/// Once the main stream has ended, nothing that is reported changes that, nor
/// the status of the exit.
pub proof fn lemma_end_is_final(stage: MainStage, events: Seq<MainEvent>)
    requires
        stage.ended(),
    ensures
        main_run(stage, events) == stage,
    decreases events.len(),
{
    if events.len() > 0 {
        lemma_end_is_final(stage, events.drop_last());
    }
}

/// The main stream of a process ends in good order only after the flag was
/// read as cleared, and that reading came after the scheduler was launched,
/// which in turn came after the handler was installed.
pub proof fn lemma_exit_follows_interrupt(events: Seq<MainEvent>)
    requires
        main_run(MainStage::Installing, events) == MainStage::Interrupted,
    ensures
        exists|i: int, j: int, k: int|
            0 <= i < j < k < events.len() && events[i] == MainEvent::HandlerInstalled && events[j]
                == MainEvent::SchedulerLaunched && events[k] == (MainEvent::FlagRead {
                running: false,
            }),
{
    lemma_history(events);
}

/// If the handler is refused, the scheduler is never launched: however the
/// run goes on, the main stream never comes to wait on the flag, and it ends
/// with a status other than zero.
pub proof fn lemma_refusal_is_fatal(before: Seq<MainEvent>, after: Seq<MainEvent>)
    requires
        main_run(MainStage::Installing, before) == MainStage::Installing,
    ensures
        main_run(MainStage::Installing, before.push(MainEvent::HandlerRefused) + after)
            == MainStage::Refused,
        MainStage::Refused.pending() == (MainAction::Exit { status: 101 }),
    decreases after.len(),
{
    let refused = before.push(MainEvent::HandlerRefused);
    if after.len() == 0 {
        assert(refused + after =~= refused);
        assert(refused.drop_last() =~= before);
    } else {
        lemma_refusal_is_fatal(before, after.drop_last());
        assert((refused + after).drop_last() =~= refused + after.drop_last());
    }
}

/// What a run from the start of the process has behind it at each stage.
proof fn lemma_history(events: Seq<MainEvent>)
    ensures
        ({
            let stage = main_run(MainStage::Installing, events);
            &&& (stage == MainStage::Launching || stage == MainStage::Waiting || stage
                == MainStage::Interrupted) ==> exists|i: int|
                0 <= i < events.len() && events[i] == MainEvent::HandlerInstalled
            &&& (stage == MainStage::Waiting || stage == MainStage::Interrupted) ==> exists|
                i: int,
                j: int,
            |
                0 <= i < j < events.len() && events[i] == MainEvent::HandlerInstalled && events[j]
                    == MainEvent::SchedulerLaunched
            &&& stage == MainStage::Interrupted ==> exists|i: int, j: int, k: int|
                0 <= i < j < k < events.len() && events[i] == MainEvent::HandlerInstalled
                    && events[j] == MainEvent::SchedulerLaunched && events[k] == (
                MainEvent::FlagRead { running: false })
        }),
    decreases events.len(),
{
    if events.len() > 0 {
        let earlier = events.drop_last();
        let last: int = events.len() - 1;
        lemma_history(earlier);
        let before = main_run(MainStage::Installing, earlier);
        let stage = main_run(MainStage::Installing, events);
        if stage == MainStage::Launching || stage == MainStage::Waiting || stage
            == MainStage::Interrupted {
            if before == MainStage::Installing {
                assert(events[last] == MainEvent::HandlerInstalled);
            } else {
                let i = choose|i: int|
                    0 <= i < earlier.len() && earlier[i] == MainEvent::HandlerInstalled;
                assert(events[i] == MainEvent::HandlerInstalled);
            }
        }
        if stage == MainStage::Waiting || stage == MainStage::Interrupted {
            if before == MainStage::Launching {
                let i = choose|i: int|
                    0 <= i < earlier.len() && earlier[i] == MainEvent::HandlerInstalled;
                assert(events[i] == MainEvent::HandlerInstalled && events[last]
                    == MainEvent::SchedulerLaunched);
            } else {
                let (i, j) = choose|i: int, j: int|
                    0 <= i < j < earlier.len() && earlier[i] == MainEvent::HandlerInstalled
                        && earlier[j] == MainEvent::SchedulerLaunched;
                assert(events[i] == MainEvent::HandlerInstalled && events[j]
                    == MainEvent::SchedulerLaunched);
            }
        }
        if stage == MainStage::Interrupted {
            if before == MainStage::Waiting {
                let (i, j) = choose|i: int, j: int|
                    0 <= i < j < earlier.len() && earlier[i] == MainEvent::HandlerInstalled
                        && earlier[j] == MainEvent::SchedulerLaunched;
                assert(events[i] == MainEvent::HandlerInstalled && events[j]
                    == MainEvent::SchedulerLaunched && events[last] == (MainEvent::FlagRead {
                    running: false,
                }));
            } else {
                let (i, j, k) = choose|i: int, j: int, k: int|
                    0 <= i < j < k < earlier.len() && earlier[i] == MainEvent::HandlerInstalled
                        && earlier[j] == MainEvent::SchedulerLaunched && earlier[k] == (
                    MainEvent::FlagRead { running: false });
                assert(events[i] == MainEvent::HandlerInstalled && events[j]
                    == MainEvent::SchedulerLaunched && events[k] == (MainEvent::FlagRead {
                    running: false,
                }));
            }
        }
    }
}

} // verus!
