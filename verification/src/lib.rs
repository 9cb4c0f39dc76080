//! A Pomodoro countdown timer core: a small state machine over modes
//! (work, short break, long break), a run state (idle, paused, running)
//! and a remaining duration, advanced by externally delivered events.
//!
//! All durations and timestamps are whole milliseconds. The host loop
//! reads its clock and hands the current timestamp in with each event;
//! the core itself performs no I/O and never fails.

pub mod display;
pub mod laws;
pub mod timer;
