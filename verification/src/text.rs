//! The text shown to the user: the fixed console lines, and the messages that
//! open each interval with its length in whole minutes.

use crate::durations::{minutes_in, whole_minutes};
use crate::phase::Phase;
use vstd::prelude::*;

verus! {

/// The character that writes a single decimal digit.
pub open spec fn digit(d: nat) -> char
    recommends
        d < 10,
{
    if d == 0 {
        '0'
    } else if d == 1 {
        '1'
    } else if d == 2 {
        '2'
    } else if d == 3 {
        '3'
    } else if d == 4 {
        '4'
    } else if d == 5 {
        '5'
    } else if d == 6 {
        '6'
    } else if d == 7 {
        '7'
    } else if d == 8 {
        '8'
    } else {
        '9'
    }
}

/// A number written in base ten, most significant digit first, without
/// leading zeros; zero is written as a single `0`.
pub open spec fn decimal(n: nat) -> Seq<char>
    decreases n,
{
    if n < 10 {
        seq![digit(n)]
    } else {
        decimal(n / 10).push(digit(n % 10))
    }
}

/// The digit that a character writes; zero for any other character.
pub open spec fn digit_value(c: char) -> nat {
    if c == '1' {
        1
    } else if c == '2' {
        2
    } else if c == '3' {
        3
    } else if c == '4' {
        4
    } else if c == '5' {
        5
    } else if c == '6' {
        6
    } else if c == '7' {
        7
    } else if c == '8' {
        8
    } else if c == '9' {
        9
    } else {
        0
    }
}

/// Whether a character is one of the ten decimal digits.
pub open spec fn is_digit(c: char) -> bool {
    c == '0' || digit_value(c) > 0
}

/// The number that a text of decimal digits denotes, read from the left.
pub open spec fn decimal_value(text: Seq<char>) -> nat
    decreases text.len(),
{
    if text.len() == 0 {
        0
    } else {
        decimal_value(text.drop_last()) * 10 + digit_value(text.last())
    }
}

/// What is written for a number is that number's numeral: it holds digits
/// only, at least one, it starts with `0` only when the number is zero, and
/// read back it denotes the number.
pub proof fn lemma_decimal_reads_back(n: nat)
    ensures
        decimal(n).len() >= 1,
        forall|i: int| 0 <= i < decimal(n).len() ==> is_digit(#[trigger] decimal(n)[i]),
        decimal(n)[0] == '0' <==> n == 0,
        decimal_value(decimal(n)) == n,
    decreases n,
{
    if n < 10 {
        assert(decimal_value(decimal(n)) == n) by {
            reveal_with_fuel(decimal_value, 2);
        }
    } else {
        lemma_decimal_reads_back(n / 10);
        assert(decimal(n).drop_last() =~= decimal(n / 10));
    }
}

/// The message that opens a work interval of `minutes` minutes.
pub open spec fn work_text(minutes: nat) -> Seq<char> {
    "Starting new pomodoro: "@ + decimal(minutes) + "m"@
}

/// The message that opens a short rest of `minutes` minutes.
pub open spec fn short_pause_text(minutes: nat) -> Seq<char> {
    "Ready for a short pause: "@ + decimal(minutes) + "m"@
}

/// The message that opens a long rest of `minutes` minutes.
pub open spec fn long_pause_text(minutes: nat) -> Seq<char> {
    "Ready for a long pause: "@ + decimal(minutes) + "m"@
}

/// The message that opens an interval of the given kind and length.
pub open spec fn announcement_text(phase: Phase, minutes: nat) -> Seq<char> {
    match phase {
        Phase::Working => work_text(minutes),
        Phase::ShortBreak => short_pause_text(minutes),
        Phase::LongBreak => long_pause_text(minutes),
    }
}

/// The text of one decimal digit.
fn digit_str(d: u64) -> (text: &'static str)
    requires
        d < 10,
    ensures
        text@ == seq![digit(d as nat)],
{
    proof {
        reveal_strlit("0");
        reveal_strlit("1");
        reveal_strlit("2");
        reveal_strlit("3");
        reveal_strlit("4");
        reveal_strlit("5");
        reveal_strlit("6");
        reveal_strlit("7");
        reveal_strlit("8");
        reveal_strlit("9");
    }
    let text = if d == 0 {
        "0"
    } else if d == 1 {
        "1"
    } else if d == 2 {
        "2"
    } else if d == 3 {
        "3"
    } else if d == 4 {
        "4"
    } else if d == 5 {
        "5"
    } else if d == 6 {
        "6"
    } else if d == 7 {
        "7"
    } else if d == 8 {
        "8"
    } else {
        "9"
    };
    text
}

/// Writes `n` in base ten at the end of `text`.
pub fn push_decimal(text: &mut String, n: u64)
    ensures
        final(text)@ == old(text)@ + decimal(n as nat),
    decreases n,
{
    if n >= 10 {
        push_decimal(text, n / 10);
    }
    text.append(digit_str(n % 10));
}

/// `n` written in base ten.
pub fn decimal_string(n: u64) -> (text: String)
    ensures
        text@ == decimal(n as nat),
{
    let mut text = String::new();
    push_decimal(&mut text, n);
    text
}

/// The message that opens an interval of the given kind lasting `seconds`.
/// The length is shown in whole minutes, the remainder dropped.
pub fn announcement(phase: Phase, seconds: u64) -> (text: String)
    ensures
        text@ == announcement_text(phase, minutes_in(seconds as nat)),
{
    let mut text = match phase {
        Phase::Working => String::from_str("Starting new pomodoro: "),
        Phase::ShortBreak => String::from_str("Ready for a short pause: "),
        Phase::LongBreak => String::from_str("Ready for a long pause: "),
    };
    push_decimal(&mut text, whole_minutes(seconds));
    text.append("m");
    text
}

/// The name under which notifications are sent.
pub fn app_name() -> (text: &'static str)
    ensures
        text@ == "Yolodoro"@,
{
    "Yolodoro"
}

/// The console line that closes a work interval.
pub fn work_done_line() -> (text: &'static str)
    ensures
        text@ == "Pomodoro done"@,
{
    "Pomodoro done"
}

/// The console line printed once the interrupt handler is in place.
pub fn waiting_line() -> (text: &'static str)
    ensures
        text@ == "Waiting for Ctrl-C..."@,
{
    "Waiting for Ctrl-C..."
}

/// The console line printed when the interrupt has been seen.
pub fn exiting_line() -> (text: &'static str)
    ensures
        text@ == "Got it! Exiting..."@,
{
    "Got it! Exiting..."
}

/// The message shown when the interrupt handler could not be put in place.
pub fn handler_refused_line() -> (text: &'static str)
    ensures
        text@ == "Error setting Ctrl-C handler"@,
{
    "Error setting Ctrl-C handler"
}

} // verus!
