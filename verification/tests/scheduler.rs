use yolodoro::durations::Durations;
use yolodoro::phase::Phase;
use yolodoro::scheduler::{Action, Announcement, Event, NotifyOutcome, Scheduler, Stage};

/// Drives the scheduler as a host would, for the given number of intervals,
/// and returns everything it was told to do.
fn drive(scheduler: &mut Scheduler, intervals: usize, outcome: NotifyOutcome) -> Vec<Action> {
    let mut actions = vec![scheduler.pending()];
    for _ in 0..intervals {
        actions.push(scheduler.step(Event::Notified(outcome)));
        actions.push(scheduler.step(Event::Elapsed));
    }
    actions
}

fn announced_phases(actions: &[Action]) -> Vec<Phase> {
    let mut phases = Vec::new();
    for action in actions {
        if let Action::Announce(announcement) = action {
            phases.push(announcement.phase);
        }
    }
    phases
}

fn slept_seconds(actions: &[Action]) -> Vec<u64> {
    let mut sleeps = Vec::new();
    for action in actions {
        if let Action::Sleep { seconds } = action {
            sleeps.push(*seconds);
        }
    }
    sleeps
}

#[test]
fn new_scheduler_waits_to_announce_work() {
    let durations = Durations::from_minutes(24, 5, 20).unwrap();
    let scheduler = Scheduler::new(durations);
    assert_eq!(scheduler.completed(), 0);
    assert_eq!(scheduler.phase(), Phase::Working);
    assert_eq!(scheduler.stage(), Stage::Announcing);
    assert_eq!(scheduler.durations(), durations);
    assert!(!scheduler.is_stopped());
    assert_eq!(
        scheduler.pending(),
        Action::Announce(Announcement { phase: Phase::Working, seconds: 1440 })
    );
}

#[test]
fn four_cycles_of_one_second_intervals() {
    let mut scheduler = Scheduler::new(Durations::from_seconds(1, 1, 1));
    let actions = drive(&mut scheduler, 8, NotifyOutcome::Delivered);
    let phases = announced_phases(&actions);
    assert_eq!(
        phases[..8],
        [
            Phase::Working,
            Phase::ShortBreak,
            Phase::Working,
            Phase::ShortBreak,
            Phase::Working,
            Phase::ShortBreak,
            Phase::Working,
            Phase::LongBreak,
        ]
    );
    assert_eq!(slept_seconds(&actions), vec![1, 1, 1, 1, 1, 1, 1, 1]);
    assert_eq!(scheduler.completed(), 4);
    assert_eq!(scheduler.phase(), Phase::Working);
}

#[test]
fn four_cycles_log_in_order() {
    let mut scheduler = Scheduler::new(Durations::from_seconds(1, 1, 1));
    let actions = drive(&mut scheduler, 8, NotifyOutcome::Delivered);
    let mut log: Vec<String> = Vec::new();
    for action in &actions[..16] {
        if let Action::Announce(announcement) = action {
            log.extend(announcement.console_lines());
        }
    }
    assert_eq!(
        log,
        vec![
            "Starting new pomodoro: 0m",
            "Pomodoro done",
            "Ready for a short pause: 0m",
            "Starting new pomodoro: 0m",
            "Pomodoro done",
            "Ready for a short pause: 0m",
            "Starting new pomodoro: 0m",
            "Pomodoro done",
            "Ready for a short pause: 0m",
            "Starting new pomodoro: 0m",
            "Pomodoro done",
            "Ready for a long pause: 0m",
        ]
    );
}

#[test]
fn each_step_of_the_first_cycle() {
    let mut scheduler = Scheduler::new(Durations::from_seconds(1500, 300, 900));
    assert_eq!(
        scheduler.step(Event::Notified(NotifyOutcome::Delivered)),
        Action::Sleep { seconds: 1500 }
    );
    assert_eq!(scheduler.stage(), Stage::Sleeping);
    assert_eq!(scheduler.phase(), Phase::Working);
    assert_eq!(scheduler.completed(), 0);
    assert_eq!(
        scheduler.step(Event::Elapsed),
        Action::Announce(Announcement { phase: Phase::ShortBreak, seconds: 300 })
    );
    assert_eq!(scheduler.stage(), Stage::Announcing);
    assert_eq!(scheduler.phase(), Phase::ShortBreak);
    assert_eq!(scheduler.completed(), 1);
    assert_eq!(
        scheduler.step(Event::Notified(NotifyOutcome::Delivered)),
        Action::Sleep { seconds: 300 }
    );
    assert_eq!(scheduler.completed(), 1);
    assert_eq!(
        scheduler.step(Event::Elapsed),
        Action::Announce(Announcement { phase: Phase::Working, seconds: 1500 })
    );
    assert_eq!(scheduler.completed(), 1);
}

#[test]
fn counter_counts_completed_work_intervals() {
    let mut scheduler = Scheduler::new(Durations::from_seconds(3, 2, 1));
    let mut n: u64 = 0;
    while n < 40 {
        assert_eq!(scheduler.completed(), n);
        scheduler.step(Event::Notified(NotifyOutcome::Delivered));
        let action = scheduler.step(Event::Elapsed);
        n += 1;
        assert_eq!(scheduler.completed(), n);
        let (phase, seconds) =
            if n % 4 == 0 { (Phase::LongBreak, 1) } else { (Phase::ShortBreak, 2) };
        assert_eq!(action, Action::Announce(Announcement { phase, seconds }));
        scheduler.step(Event::Notified(NotifyOutcome::Delivered));
        scheduler.step(Event::Elapsed);
    }
}

#[test]
fn work_and_rest_take_turns() {
    let mut scheduler = Scheduler::new(Durations::from_seconds(5, 6, 7));
    let actions = drive(&mut scheduler, 50, NotifyOutcome::Delivered);
    let phases = announced_phases(&actions);
    assert_eq!(phases[0], Phase::Working);
    for index in 0..phases.len() {
        assert_eq!(phases[index].is_break(), index % 2 == 1);
        if index > 0 {
            assert_ne!(phases[index].is_break(), phases[index - 1].is_break());
        }
    }
}

#[test]
fn failing_notifier_does_not_change_the_schedule() {
    let durations = Durations::from_seconds(10, 20, 30);
    let mut with_failures = Scheduler::new(durations);
    let mut without = Scheduler::new(durations);
    let failed = drive(&mut with_failures, 24, NotifyOutcome::Failed);
    let delivered = drive(&mut without, 24, NotifyOutcome::Delivered);
    assert_eq!(failed, delivered);
    assert_eq!(with_failures, without);
    assert!(!failed.contains(&Action::Halt));
    assert_eq!(with_failures.completed(), 12);
    let total: u64 = slept_seconds(&failed).iter().sum();
    assert_eq!(total, 12 * 10 + 9 * 20 + 3 * 30);
}

#[test]
fn equal_rests_make_cycles_of_equal_length() {
    let mut scheduler = Scheduler::new(Durations::from_seconds(7, 3, 3));
    let actions = drive(&mut scheduler, 2 * 9, NotifyOutcome::Failed);
    let total: u64 = slept_seconds(&actions).iter().sum();
    assert_eq!(total, 9 * (7 + 3));
}

#[test]
fn failed_notification_is_followed_by_the_full_sleep() {
    let mut scheduler = Scheduler::new(Durations::from_seconds(1500, 300, 900));
    assert_eq!(
        scheduler.step(Event::Notified(NotifyOutcome::Failed)),
        Action::Sleep { seconds: 1500 }
    );
    scheduler.step(Event::Elapsed);
    assert_eq!(
        scheduler.step(Event::Notified(NotifyOutcome::Failed)),
        Action::Sleep { seconds: 300 }
    );
}

#[test]
fn zero_length_work_goes_straight_to_the_rest() {
    let mut scheduler = Scheduler::new(Durations::from_seconds(0, 60, 120));
    let first = scheduler.pending();
    assert_eq!(first, Action::Announce(Announcement { phase: Phase::Working, seconds: 0 }));
    assert_eq!(
        scheduler.step(Event::Notified(NotifyOutcome::Delivered)),
        Action::Sleep { seconds: 0 }
    );
    let rest = scheduler.step(Event::Elapsed);
    assert_eq!(rest, Action::Announce(Announcement { phase: Phase::ShortBreak, seconds: 60 }));
    if let Action::Announce(announcement) = rest {
        assert_eq!(announcement.message(), "Ready for a short pause: 1m");
    }
    assert_eq!(scheduler.completed(), 1);
}

#[test]
fn all_zero_lengths_still_cycle() {
    let mut scheduler = Scheduler::new(Durations::from_seconds(0, 0, 0));
    let actions = drive(&mut scheduler, 8, NotifyOutcome::Delivered);
    assert_eq!(slept_seconds(&actions), vec![0; 8]);
    assert_eq!(scheduler.completed(), 4);
    assert!(!actions.contains(&Action::Halt));
}

#[test]
fn report_that_answers_nothing_is_ignored() {
    let mut scheduler = Scheduler::new(Durations::from_seconds(10, 20, 30));
    let before = scheduler;
    assert_eq!(scheduler.step(Event::Elapsed), before.pending());
    assert_eq!(scheduler, before);
    scheduler.step(Event::Notified(NotifyOutcome::Delivered));
    let sleeping = scheduler;
    assert_eq!(
        scheduler.step(Event::Notified(NotifyOutcome::Delivered)),
        Action::Sleep { seconds: 10 }
    );
    assert_eq!(scheduler, sleeping);
    assert_eq!(scheduler.completed(), 0);
}

#[test]
fn stop_request_halts_from_every_stage() {
    let mut announcing = Scheduler::new(Durations::from_seconds(10, 20, 30));
    assert_eq!(announcing.step(Event::StopRequested), Action::Halt);
    assert!(announcing.is_stopped());
    assert_eq!(announcing.stage(), Stage::Stopped);

    let mut sleeping = Scheduler::new(Durations::from_seconds(10, 20, 30));
    sleeping.step(Event::Notified(NotifyOutcome::Delivered));
    assert_eq!(sleeping.step(Event::StopRequested), Action::Halt);
    assert!(sleeping.is_stopped());
}

#[test]
fn stopped_scheduler_stays_stopped() {
    let mut scheduler = Scheduler::new(Durations::from_seconds(10, 20, 30));
    scheduler.step(Event::Notified(NotifyOutcome::Delivered));
    scheduler.step(Event::Elapsed);
    scheduler.step(Event::StopRequested);
    let stopped = scheduler;
    assert_eq!(scheduler.step(Event::Elapsed), Action::Halt);
    assert_eq!(scheduler.step(Event::Notified(NotifyOutcome::Failed)), Action::Halt);
    assert_eq!(scheduler.step(Event::StopRequested), Action::Halt);
    assert_eq!(scheduler.pending(), Action::Halt);
    assert_eq!(scheduler, stopped);
    assert_eq!(scheduler.completed(), 1);
    assert_eq!(scheduler.phase(), Phase::ShortBreak);
}

#[test]
fn announcement_of_work_has_one_line() {
    let announcement = Announcement { phase: Phase::Working, seconds: 1440 };
    assert_eq!(announcement.minutes(), 24);
    assert_eq!(announcement.message(), "Starting new pomodoro: 24m");
    assert_eq!(announcement.console_lines(), vec!["Starting new pomodoro: 24m"]);
    assert_eq!(announcement.title(), "Yolodoro");
}

#[test]
fn announcement_of_a_rest_closes_the_work_first() {
    let short = Announcement { phase: Phase::ShortBreak, seconds: 300 };
    assert_eq!(short.minutes(), 5);
    assert_eq!(short.message(), "Ready for a short pause: 5m");
    assert_eq!(short.console_lines(), vec!["Pomodoro done", "Ready for a short pause: 5m"]);
    assert_eq!(short.title(), "Yolodoro");
    let long = Announcement { phase: Phase::LongBreak, seconds: 1200 };
    assert_eq!(long.minutes(), 20);
    assert_eq!(long.message(), "Ready for a long pause: 20m");
    assert_eq!(long.console_lines(), vec!["Pomodoro done", "Ready for a long pause: 20m"]);
}

#[test]
fn announcement_of_ninety_seconds_shows_one_minute() {
    let announcement = Announcement { phase: Phase::Working, seconds: 90 };
    assert_eq!(announcement.minutes(), 1);
    assert_eq!(announcement.message(), "Starting new pomodoro: 1m");
}

#[test]
fn interval_end_reports_by_the_flag() {
    assert_eq!(Event::interval_end(true), Event::Elapsed);
    assert_eq!(Event::interval_end(false), Event::StopRequested);
}

#[test]
fn cleared_flag_at_interval_end_halts_the_schedule() {
    let mut scheduler = Scheduler::new(Durations::from_seconds(10, 20, 30));
    scheduler.step(Event::Notified(NotifyOutcome::Delivered));
    assert_eq!(
        scheduler.step(Event::interval_end(true)),
        Action::Announce(Announcement { phase: Phase::ShortBreak, seconds: 20 })
    );
    scheduler.step(Event::Notified(NotifyOutcome::Delivered));
    assert_eq!(scheduler.step(Event::interval_end(false)), Action::Halt);
    assert!(scheduler.is_stopped());
    assert_eq!(scheduler.completed(), 1);
}

#[test]
fn default_session_announces_its_minutes() {
    let mut scheduler = Scheduler::new(Durations::default());
    let actions = drive(&mut scheduler, 8, NotifyOutcome::Delivered);
    let mut bodies: Vec<String> = Vec::new();
    for action in &actions[..16] {
        if let Action::Announce(announcement) = action {
            bodies.push(announcement.message());
        }
    }
    assert_eq!(
        bodies,
        vec![
            "Starting new pomodoro: 24m",
            "Ready for a short pause: 5m",
            "Starting new pomodoro: 24m",
            "Ready for a short pause: 5m",
            "Starting new pomodoro: 24m",
            "Ready for a short pause: 5m",
            "Starting new pomodoro: 24m",
            "Ready for a long pause: 20m",
        ]
    );
    assert_eq!(slept_seconds(&actions), vec![1440, 300, 1440, 300, 1440, 300, 1440, 1200]);
}
