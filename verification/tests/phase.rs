use yolodoro::phase::{break_after, Phase, LONG_BREAK_PERIOD};

#[test]
fn every_fourth_rest_is_long() {
    assert_eq!(LONG_BREAK_PERIOD, 4);
    assert_eq!(break_after(1), Phase::ShortBreak);
    assert_eq!(break_after(2), Phase::ShortBreak);
    assert_eq!(break_after(3), Phase::ShortBreak);
    assert_eq!(break_after(4), Phase::LongBreak);
    assert_eq!(break_after(5), Phase::ShortBreak);
    assert_eq!(break_after(6), Phase::ShortBreak);
    assert_eq!(break_after(7), Phase::ShortBreak);
    assert_eq!(break_after(8), Phase::LongBreak);
}

#[test]
fn rest_is_long_exactly_at_multiples_of_four() {
    let mut completed: u64 = 0;
    while completed < 1000 {
        let expected = if completed % 4 == 0 { Phase::LongBreak } else { Phase::ShortBreak };
        assert_eq!(break_after(completed), expected);
        completed += 1;
    }
}

#[test]
fn rest_at_the_ends_of_the_counter() {
    assert_eq!(break_after(0), Phase::LongBreak);
    assert_eq!(break_after(u64::MAX), Phase::ShortBreak);
    assert_eq!(break_after(u64::MAX - 3), Phase::LongBreak);
}

#[test]
fn rests_are_breaks_and_work_is_not() {
    assert!(!Phase::Working.is_break());
    assert!(Phase::ShortBreak.is_break());
    assert!(Phase::LongBreak.is_break());
}
