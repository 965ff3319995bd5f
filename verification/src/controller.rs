//! One round of the interactive loop: a key, if one came, and a tick, if
//! one is due.
//!
//! Waiting for keys and reading the clock are the caller's business; what
//! to do with what it found is decided here. Times are in nanoseconds.

use vstd::prelude::*;

use crate::player::App;
use crate::state::PlayerState;

verus! {

/// The state after a round in which the user pressed `key`, if any, and in
/// which a tick was or was not due. The key comes first.
pub open spec fn after_round(state: PlayerState, key: Option<char>, tick: bool) -> PlayerState {
    let keyed = match key {
        Some(key) => state.on_key(key),
        None => state,
    };
    if tick {
        keyed.on_tick()
    } else {
        keyed
    }
}

/// How long the caller may wait for a key before the next tick is due:
/// what is left of `tick_rate` once `elapsed` has gone by since the last
/// tick, and no time at all if the tick is overdue.
pub fn poll_timeout(tick_rate: u128, elapsed: u128) -> (timeout: u128)
    ensures
        elapsed >= tick_rate ==> timeout == 0,
        elapsed < tick_rate ==> timeout == tick_rate - elapsed,
{
    if elapsed >= tick_rate {
        0
    } else {
        tick_rate - elapsed
    }
}

/// Whether a tick is due `elapsed` after the last one.
pub fn tick_due(tick_rate: u128, elapsed: u128) -> (due: bool)
    ensures
        due == (elapsed >= tick_rate),
{
    elapsed >= tick_rate
}

/// Runs one round: acts on `key`, the key that arrived while the caller
/// waited, and then lets a second pass if `elapsed`, the time since the
/// last tick as measured after the wait, has reached `tick_rate`. Says
/// whether it did, so that the caller can start timing the next tick.
pub fn main_controller(app: &mut App, key: Option<char>, tick_rate: u128, elapsed: u128) -> (ticked:
    bool)
    ensures
        ticked == (elapsed >= tick_rate),
        final(app)@ == after_round(old(app)@, key, ticked),
        final(app)@.wf(),
{
    proof {
        use_type_invariant(&*app);
    }
    match key {
        Some(key) => app.on_key(key),
        None => {},
    }
    let ticked = tick_due(tick_rate, elapsed);
    if ticked {
        app.on_tick();
    }
    ticked
}

} // verus!
