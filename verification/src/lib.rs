//! A Pomodoro-technique interval timer, as a library of decisions.
//!
//! The timer alternates a work interval with a short or a long rest, without
//! end. This crate holds every decision of that cycle: the lengths of the
//! intervals, which rest follows which work interval, the text shown at each
//! transition, and the rules by which the host process starts and stops. It
//! performs no I/O: a host prints, notifies, sleeps and watches for the
//! interrupt, and reports back what happened.
//!
//! - [`durations`]: the three interval lengths of a session.
//! - [`phase`]: the kinds of interval and the choice of the rest.
//! - [`text`]: the console lines and the messages.
//! - [`scheduler`]: the interval scheduler, a state machine.
//! - [`run`]: what holds of every run of the scheduler.
//! - [`supervisor`]: the main stream of the process, from start-up to exit.

pub mod durations;
pub mod phase;
pub mod run;
pub mod scheduler;
pub mod supervisor;
pub mod text;
