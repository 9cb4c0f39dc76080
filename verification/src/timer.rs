//! The timer state machine: modes, run states, events, and the
//! controller that `apply` steps deterministically.

use vstd::prelude::*;

verus! {

/// Milliseconds of a work interval (25 minutes).
pub const WORK_MS: u64 = 1_500_000;
/// Milliseconds of a short break (5 minutes).
pub const SHORT_BREAK_MS: u64 = 300_000;
/// Milliseconds of a long break (15 minutes).
pub const LONG_BREAK_MS: u64 = 900_000;

/// Which of the three timer presets is selected.
#[derive(Clone, Copy, Debug, PartialEq, Eq, Structural)]
pub enum Mode {
    Work,
    ShortBreak,
    LongBreak,
}

/// Whether the countdown is actively decreasing (`Running`), held
/// (`Paused`), or not started / expired (`Idle`).
#[derive(Clone, Copy, Debug, PartialEq, Eq, Structural)]
pub enum RunState {
    Idle,
    Paused,
    Running,
}

/// An external input to the controller: a user action, or the periodic
/// tick that carries elapsed real time via the `now` timestamp.
#[derive(Clone, Copy, Debug, PartialEq, Eq, Structural)]
pub enum Event {
    Start,
    Pause,
    Resume,
    SwitchMode(Mode),
    Reset,
    Tick,
}

/// The fixed preset length of a mode, in milliseconds.
pub open spec fn spec_canonical_duration_ms(m: Mode) -> u64 {
    match m {
        Mode::Work => WORK_MS,
        Mode::ShortBreak => SHORT_BREAK_MS,
        Mode::LongBreak => LONG_BREAK_MS,
    }
}

/// The fixed preset length of a mode, in milliseconds.
pub fn canonical_duration_ms(m: Mode) -> (d: u64)
    ensures
        d == spec_canonical_duration_ms(m),
{
    match m {
        Mode::Work => WORK_MS,
        Mode::ShortBreak => SHORT_BREAK_MS,
        Mode::LongBreak => LONG_BREAK_MS,
    }
}

/// The countdown timer. A plain value: the host loop owns one instance
/// and mutates it only through `apply`.
///
/// `last_tick_ms` is meaningful only while `run_state` is `Running`; it
/// is refreshed whenever `Running` is entered and on every tick.
#[derive(Clone, Copy, Debug, PartialEq, Eq, Structural)]
pub struct TimerController {
    pub mode: Mode,
    pub run_state: RunState,
    pub remaining_ms: u64,
    pub last_tick_ms: u64,
}

/// Time elapsed between two timestamps of a monotonic clock. A clock
/// that never moves backwards keeps `now_ms >= last_tick_ms`; should a
/// host hand in an earlier timestamp anyway, no time has passed.
pub open spec fn spec_elapsed_ms(last_tick_ms: u64, now_ms: u64) -> u64 {
    if now_ms >= last_tick_ms {
        (now_ms - last_tick_ms) as u64
    } else {
        0
    }
}

/// What remains after counting `elapsed` milliseconds down from
/// `remaining`, saturating at zero rather than going negative.
pub open spec fn spec_count_down(remaining: u64, elapsed: u64) -> u64 {
    if elapsed >= remaining {
        0
    } else {
        (remaining - elapsed) as u64
    }
}

/// The controller as created at startup: work mode, idle, a full work
/// interval remaining.
pub open spec fn spec_init(now_ms: u64) -> TimerController {
    TimerController {
        mode: Mode::Work,
        run_state: RunState::Idle,
        remaining_ms: WORK_MS,
        last_tick_ms: now_ms,
    }
}

/// The transition function of the state machine: the state after `event`
/// arrives at time `now_ms` in state `c`. Total: every event is accepted
/// from every state.
pub open spec fn spec_apply(c: TimerController, event: Event, now_ms: u64) -> TimerController {
    match event {
        Event::Start => TimerController {
            mode: c.mode,
            run_state: RunState::Running,
            remaining_ms: spec_canonical_duration_ms(c.mode),
            last_tick_ms: now_ms,
        },
        Event::Pause => TimerController {
            mode: c.mode,
            run_state: RunState::Paused,
            remaining_ms: c.remaining_ms,
            last_tick_ms: c.last_tick_ms,
        },
        Event::Resume => TimerController {
            mode: c.mode,
            run_state: RunState::Running,
            remaining_ms: c.remaining_ms,
            last_tick_ms: now_ms,
        },
        Event::SwitchMode(m) => TimerController {
            mode: m,
            run_state: RunState::Idle,
            remaining_ms: spec_canonical_duration_ms(m),
            last_tick_ms: c.last_tick_ms,
        },
        Event::Reset => TimerController {
            mode: c.mode,
            run_state: RunState::Idle,
            remaining_ms: spec_canonical_duration_ms(c.mode),
            last_tick_ms: c.last_tick_ms,
        },
        Event::Tick => {
            if c.run_state == RunState::Running {
                let left = spec_count_down(
                    c.remaining_ms,
                    spec_elapsed_ms(c.last_tick_ms, now_ms),
                );
                TimerController {
                    mode: c.mode,
                    run_state: if left == 0 {
                        RunState::Idle
                    } else {
                        RunState::Running
                    },
                    remaining_ms: left,
                    last_tick_ms: now_ms,
                }
            } else {
                c
            }
        },
    }
}

impl TimerController {
    /// The controller's invariant: what remains never exceeds the
    /// preset length of the current mode.
    pub open spec fn wf(self) -> bool {
        self.remaining_ms <= spec_canonical_duration_ms(self.mode)
    }

    /// Create the controller in its startup state, given the host
    /// clock's current reading.
    pub fn new(now_ms: u64) -> (c: TimerController)
        ensures
            c == spec_init(now_ms),
            c.wf(),
    {
        TimerController {
            mode: Mode::Work,
            run_state: RunState::Idle,
            remaining_ms: WORK_MS,
            last_tick_ms: now_ms,
        }
    }

    /// Step the state machine: apply one event at time `now_ms`. Cannot
    /// fail, whatever the state and event; the invariant is preserved.
    pub fn apply(&mut self, event: Event, now_ms: u64)
        ensures
            *final(self) == spec_apply(*old(self), event, now_ms),
            old(self).wf() ==> final(self).wf(),
    {
        match event {
            Event::Start => {
                self.remaining_ms = canonical_duration_ms(self.mode);
                self.last_tick_ms = now_ms;
                self.run_state = RunState::Running;
            },
            Event::Pause => {
                self.run_state = RunState::Paused;
            },
            Event::Resume => {
                self.last_tick_ms = now_ms;
                self.run_state = RunState::Running;
            },
            Event::SwitchMode(m) => {
                self.mode = m;
                self.remaining_ms = canonical_duration_ms(m);
                self.run_state = RunState::Idle;
            },
            Event::Reset => {
                self.remaining_ms = canonical_duration_ms(self.mode);
                self.run_state = RunState::Idle;
            },
            Event::Tick => {
                match self.run_state {
                    RunState::Running => {
                        let elapsed = if now_ms >= self.last_tick_ms {
                            now_ms - self.last_tick_ms
                        } else {
                            0
                        };
                        self.last_tick_ms = now_ms;
                        self.remaining_ms = if elapsed >= self.remaining_ms {
                            0
                        } else {
                            self.remaining_ms - elapsed
                        };
                        if self.remaining_ms == 0 {
                            self.run_state = RunState::Idle;
                        }
                    },
                    _ => {},
                }
            },
        }
    }

    /// How much of the current interval remains, in milliseconds.
    pub fn remaining_ms(&self) -> (r: u64)
        ensures
            r == self.remaining_ms,
    {
        self.remaining_ms
    }

    /// How much of the current interval remains, in whole seconds
    /// (rounded down), as the display shows it.
    pub fn remaining_secs(&self) -> (s: u64)
        ensures
            s == self.remaining_ms / 1000,
    {
        self.remaining_ms / 1000
    }

    /// The selected preset.
    pub fn mode(&self) -> (m: Mode)
        ensures
            m == self.mode,
    {
        self.mode
    }

    /// Whether the countdown is idle, paused or running.
    pub fn run_state(&self) -> (s: RunState)
        ensures
            s == self.run_state,
    {
        self.run_state
    }
}

} // verus!
