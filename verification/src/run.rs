//! Whole runs of the scheduler, and what holds of every one of them.
//!
//! A run is the sequence of states that the scheduler passes through as a
//! host reports events to it. The theorems below are stated over the
//! mathematical state of the scheduler, which is what
//! [`Scheduler::step`](crate::scheduler::Scheduler::step) is proved to follow.

use crate::durations::Lengths;
use crate::phase::{rest_after, Phase};
use crate::scheduler::{Action, Announcement, Event, NotifyOutcome, SchedulerState, Stage};
use vstd::prelude::*;

verus! {

/// The state reached from `start` when the events are reported in order.
pub open spec fn run(start: SchedulerState, events: Seq<Event>) -> SchedulerState
    decreases events.len(),
{
    if events.len() == 0 {
        start
    } else {
        run(start, events.drop_last()).next(events.last())
    }
}

/// The state of a session in which the host has carried out every action
/// handed to it for the first `outcomes.len()` intervals: each interval was
/// announced, with the notifier ending as `outcomes` says, and then slept
/// through. The interval with that index, counting from zero, is the one
/// waiting to be announced.
pub open spec fn after_intervals(lengths: Lengths, outcomes: Seq<NotifyOutcome>) -> SchedulerState
    decreases outcomes.len(),
{
    if outcomes.len() == 0 {
        SchedulerState::initial(lengths)
    } else {
        after_intervals(lengths, outcomes.drop_last()).next(Event::Notified(outcomes.last())).next(
            Event::Elapsed,
        )
    }
}

/// The number of work intervals that lie before the interval with the given
/// index, counting intervals from zero.
pub open spec fn work_done_before(index: nat) -> nat {
    (index + 1) / 2
}

/// The kind of the interval with the given index, counting from zero: work at
/// every even index, and at every odd index the rest that the count of work
/// intervals so far calls for.
pub open spec fn interval_phase(index: nat) -> Phase {
    if index % 2 == 0 {
        Phase::Working
    } else {
        rest_after(work_done_before(index))
    }
}

/// The seconds that the first `intervals` intervals of a session last when
/// each is slept through in full.
pub open spec fn slept_through(lengths: Lengths, intervals: nat) -> nat
    decreases intervals,
{
    if intervals == 0 {
        0
    } else {
        slept_through(lengths, (intervals - 1) as nat) + lengths.of(
            interval_phase((intervals - 1) as nat),
        )
    }
}

/// Whether two events are the same report, leaving aside how the notifier
/// ended.
pub open spec fn same_report(first: Event, second: Event) -> bool {
    match (first, second) {
        (Event::Notified(_), Event::Notified(_)) => true,
        _ => first == second,
    }
}

/// Every step leads from a well-formed state to a well-formed state.
pub proof fn lemma_step_keeps_well_formed(state: SchedulerState, event: Event)
    requires
        state.well_formed(),
    ensures
        state.next(event).well_formed(),
{
}

/// After any number of intervals, whatever the notifier did, the scheduler is
/// about to announce the interval with that index: its kind is the one that
/// the index calls for, and the counter holds the number of work intervals
/// before it, wrapped to the counter's width.
pub proof fn lemma_after_intervals(lengths: Lengths, outcomes: Seq<NotifyOutcome>)
    ensures
        after_intervals(lengths, outcomes) == (SchedulerState {
            lengths,
            completed: work_done_before(outcomes.len()) % 0x1_0000_0000_0000_0000,
            phase: interval_phase(outcomes.len()),
            stage: Stage::Announcing,
        }),
    decreases outcomes.len(),
{
    if outcomes.len() > 0 {
        lemma_after_intervals(lengths, outcomes.drop_last());
    }
}

/// The counter starts at zero. Once `n` work intervals are completed it
/// holds `n`, wrapped to the counter's width, and the rest that follows the
/// `n`-th work interval is long exactly when `n` is a multiple of four, and
/// short otherwise.
pub proof fn lemma_counter_and_rest(lengths: Lengths, outcomes: Seq<NotifyOutcome>, n: nat)
    requires
        n >= 1,
        outcomes.len() == 2 * n - 1,
    ensures
        SchedulerState::initial(lengths).completed == 0,
        after_intervals(lengths, outcomes).completed == n % 0x1_0000_0000_0000_0000,
        n <= u64::MAX ==> after_intervals(lengths, outcomes).completed == n,
        after_intervals(lengths, outcomes).phase == rest_after(n),
        after_intervals(lengths, outcomes).phase == Phase::LongBreak <==> n % 4 == 0,
        after_intervals(lengths, outcomes).phase == Phase::ShortBreak <==> n % 4 != 0,
{
    lemma_after_intervals(lengths, outcomes);
}

/// A session opens with work, and from then on work and rest take turns: the
/// intervals at even indices are work, those at odd indices are rests, so
/// that of two intervals in a row exactly one is a rest.
pub proof fn lemma_phases_alternate(
    lengths: Lengths,
    outcomes: Seq<NotifyOutcome>,
    outcome: NotifyOutcome,
)
    ensures
        after_intervals(lengths, Seq::empty()).phase == Phase::Working,
        after_intervals(lengths, outcomes).phase.rests() <==> outcomes.len() % 2 == 1,
        after_intervals(lengths, outcomes.push(outcome)).phase.rests() != after_intervals(
            lengths,
            outcomes,
        ).phase.rests(),
{
    lemma_after_intervals(lengths, Seq::empty());
    lemma_after_intervals(lengths, outcomes);
    lemma_after_intervals(lengths, outcomes.push(outcome));
}

/// How the notifier ended makes no difference to the scheduler: after a
/// failed notification it is in the very state that a delivered one leads
/// to. If an announcement was pending, the next action is to sleep for the
/// full length of the interval.
pub proof fn lemma_notifier_outcome_immaterial(
    state: SchedulerState,
    first: NotifyOutcome,
    second: NotifyOutcome,
)
    requires
        state.well_formed(),
    ensures
        state.next(Event::Notified(first)) == state.next(Event::Notified(second)),
        state.stage == Stage::Announcing ==> state.next(Event::Notified(first)).pending() == (
        Action::Sleep { seconds: state.interval() as u64 }),
{
}

/// Each interval of a session is slept through in full, whatever the
/// notifier did before: once the interval with index `outcomes.len()` has
/// been announced, the scheduler asks for a sleep of exactly the length
/// configured for that interval's kind, and once that sleep has elapsed it
/// asks for the announcement of the next interval.
pub proof fn lemma_cadence(lengths: Lengths, outcomes: Seq<NotifyOutcome>, outcome: NotifyOutcome)
    requires
        lengths.representable(),
    ensures
        after_intervals(lengths, outcomes).pending() == Action::Announce(
            Announcement {
                phase: interval_phase(outcomes.len()),
                seconds: lengths.of(interval_phase(outcomes.len())) as u64,
            },
        ),
        after_intervals(lengths, outcomes).next(Event::Notified(outcome)).pending() == (
        Action::Sleep { seconds: lengths.of(interval_phase(outcomes.len())) as u64 }),
        after_intervals(lengths, outcomes).next(Event::Notified(outcome)).next(Event::Elapsed)
            == after_intervals(lengths, outcomes.push(outcome)),
{
    lemma_after_intervals(lengths, outcomes);
    assert(outcomes.push(outcome).drop_last() =~= outcomes);
}

/// A cycle is a work interval and the rest after it. Of any number of cycles
/// every fourth ends in a long rest and the others in a short one, and the
/// cycles last as long as their intervals together, no more and no less.
/// Where both rests have one length, `cycles` cycles last `cycles` times the
/// sum of a work interval and a rest. Nothing in this depends on the
/// notifier.
pub proof fn lemma_cycles_take_their_time(lengths: Lengths, cycles: nat)
    ensures
        slept_through(lengths, 2 * cycles) == cycles * lengths.work + (cycles - cycles / 4)
            * lengths.short_break + (cycles / 4) * lengths.long_break,
        lengths.short_break == lengths.long_break ==> slept_through(lengths, 2 * cycles) == cycles
            * (lengths.work + lengths.short_break),
    decreases cycles,
{
    let work: int = lengths.work as int;
    let short: int = lengths.short_break as int;
    let long: int = lengths.long_break as int;
    let longs: int = (cycles / 4) as int;
    let shorts: int = cycles - cycles / 4;
    if cycles > 0 {
        let earlier: nat = (cycles - 1) as nat;
        lemma_cycles_take_their_time(lengths, earlier);
        assert(slept_through(lengths, 2 * cycles) == slept_through(lengths, 2 * earlier) + work
            + lengths.of(rest_after(cycles))) by {
            reveal_with_fuel(slept_through, 3);
        }
        assert(cycles * work == earlier * work + work) by (nonlinear_arith)
            requires
                cycles == earlier + 1,
        ;
        if cycles % 4 == 0 {
            assert(longs * long == (earlier / 4) * long + long) by (nonlinear_arith)
                requires
                    longs == earlier / 4 + 1,
            ;
        } else {
            assert(shorts * short == (earlier - earlier / 4) * short + short) by (nonlinear_arith)
                requires
                    shorts == earlier - earlier / 4 + 1,
            ;
        }
    } else {
        assert(cycles * work + shorts * short + longs * long == 0) by (nonlinear_arith)
            requires
                cycles == 0,
                shorts == 0,
                longs == 0,
        ;
    }
    assert(long == short ==> cycles * work + shorts * short + longs * long == cycles * (work
        + short)) by (nonlinear_arith)
        requires
            shorts + longs == cycles,
    ;
}

/// Two runs from the same state whose reports differ only in how the notifier
/// ended reach the same state.
pub proof fn lemma_runs_agree(start: SchedulerState, first: Seq<Event>, second: Seq<Event>)
    requires
        first.len() == second.len(),
        forall|i: int| 0 <= i < first.len() ==> same_report(#[trigger] first[i], second[i]),
    ensures
        run(start, first) == run(start, second),
    decreases first.len(),
{
    if first.len() > 0 {
        lemma_runs_agree(start, first.drop_last(), second.drop_last());
    }
}

/// Nothing but a request to stop ends the schedule: a run that starts in a
/// state that is not stopped, and in which no stop is requested, never
/// reaches the stopped state, so the host is never told to halt.
pub proof fn lemma_only_a_request_stops(start: SchedulerState, events: Seq<Event>)
    requires
        start.stage != Stage::Stopped,
        forall|i: int| 0 <= i < events.len() ==> #[trigger] events[i] != Event::StopRequested,
    ensures
        run(start, events).stage != Stage::Stopped,
        run(start, events).pending() != Action::Halt,
    decreases events.len(),
{
    if events.len() > 0 {
        lemma_only_a_request_stops(start, events.drop_last());
    }
}

/// A request to stop is honoured at once and for good: the state that follows
/// it is stopped, and whatever is reported afterwards, the state stays as it
/// is and the host is told to halt.
pub proof fn lemma_stop_is_final(state: SchedulerState, events: Seq<Event>)
    ensures
        state.next(Event::StopRequested).stage == Stage::Stopped,
        run(state.next(Event::StopRequested), events) == state.next(Event::StopRequested),
        run(state.next(Event::StopRequested), events).pending() == Action::Halt,
    decreases events.len(),
{
    if events.len() > 0 {
        lemma_stop_is_final(state, events.drop_last());
    }
}

} // verus!
