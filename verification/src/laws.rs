//! The guarantees the state machine gives, stated and proved once for
//! all states and event sequences.

use vstd::prelude::*;

use crate::timer::Event;
use crate::timer::Mode;
use crate::timer::RunState;
use crate::timer::TimerController;
use crate::timer::spec_apply;
use crate::timer::spec_canonical_duration_ms;
use crate::timer::spec_elapsed_ms;
use crate::timer::spec_init;

verus! {

/// The state after a whole sequence of timestamped events has been
/// applied, first element first.
pub open spec fn spec_run(c: TimerController, events: Seq<(Event, u64)>) -> TimerController
    decreases events.len(),
{
    if events.len() == 0 {
        c
    } else {
        spec_run(spec_apply(c, events[0].0, events[0].1), events.drop_first())
    }
}

/// The startup state satisfies the invariant.
pub proof fn lemma_init_wf(now_ms: u64)
    ensures
        spec_init(now_ms).wf(),
{
}

/// One step preserves the invariant: from a state whose remaining time
/// is within its mode's preset length, every event leads to another.
pub proof fn lemma_apply_preserves_wf(c: TimerController, event: Event, now_ms: u64)
    requires
        c.wf(),
    ensures
        spec_apply(c, event, now_ms).wf(),
{
}

/// Under every sequence of events, the remaining time stays within
/// `[0, canonical duration of the current mode]`.
pub proof fn lemma_remaining_in_range(c: TimerController, events: Seq<(Event, u64)>)
    requires
        c.wf(),
    ensures
        spec_run(c, events).wf(),
        spec_run(c, events).remaining_ms <= spec_canonical_duration_ms(spec_run(c, events).mode),
    decreases events.len(),
{
    if events.len() > 0 {
        lemma_apply_preserves_wf(c, events[0].0, events[0].1);
        lemma_remaining_in_range(spec_apply(c, events[0].0, events[0].1), events.drop_first());
    }
}

/// `Start` always begins a fresh interval: full canonical duration for
/// the current mode, running, clock anchored at `now_ms` — whatever the
/// prior run state.
pub proof fn lemma_start(c: TimerController, now_ms: u64)
    ensures
        ({
            let next = spec_apply(c, Event::Start, now_ms);
            &&& next.mode == c.mode
            &&& next.run_state == RunState::Running
            &&& next.remaining_ms == spec_canonical_duration_ms(c.mode)
            &&& next.last_tick_ms == now_ms
        }),
{
}

/// `SwitchMode` always selects the new mode, resets the countdown to
/// that mode's canonical duration, and stops the timer.
pub proof fn lemma_switch_mode(c: TimerController, m: Mode, now_ms: u64)
    ensures
        ({
            let next = spec_apply(c, Event::SwitchMode(m), now_ms);
            &&& next.mode == m
            &&& next.run_state == RunState::Idle
            &&& next.remaining_ms == spec_canonical_duration_ms(m)
        }),
{
}

/// Pausing is idempotent: a second `Pause`, at any later time, leaves
/// the state exactly as the first left it.
pub proof fn lemma_pause_idempotent(c: TimerController, now1_ms: u64, now2_ms: u64)
    ensures
        spec_apply(spec_apply(c, Event::Pause, now1_ms), Event::Pause, now2_ms) == spec_apply(
            c,
            Event::Pause,
            now1_ms,
        ),
{
}

/// While running, a tick after `d` elapsed milliseconds decreases the
/// remaining time by exactly `d`, clamped at zero; it never grows and
/// never goes negative, and the mode is untouched.
pub proof fn lemma_tick_decrements(c: TimerController, now_ms: u64)
    requires
        c.run_state == RunState::Running,
        now_ms >= c.last_tick_ms,
    ensures
        ({
            let d = now_ms - c.last_tick_ms;
            let next = spec_apply(c, Event::Tick, now_ms);
            &&& next.remaining_ms == if d >= c.remaining_ms {
                0int
            } else {
                c.remaining_ms - d
            }
            &&& next.remaining_ms <= c.remaining_ms
            &&& next.mode == c.mode
            &&& next.last_tick_ms == now_ms
        }),
{
}

/// Expiry: while running, a tick after at least the whole remaining
/// time has elapsed empties the countdown and stops the timer.
pub proof fn lemma_tick_expires(c: TimerController, now_ms: u64)
    requires
        c.run_state == RunState::Running,
        spec_elapsed_ms(c.last_tick_ms, now_ms) >= c.remaining_ms,
    ensures
        spec_apply(c, Event::Tick, now_ms).remaining_ms == 0,
        spec_apply(c, Event::Tick, now_ms).run_state == RunState::Idle,
{
}

/// Outside `Running`, a tick is a no-op: the state is unchanged.
pub proof fn lemma_tick_noop(c: TimerController, now_ms: u64)
    requires
        c.run_state != RunState::Running,
    ensures
        spec_apply(c, Event::Tick, now_ms) == c,
{
}

} // verus!
