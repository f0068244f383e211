//! The lifecycle contract a loadable unit implements, and a small
//! demonstration plugin driving a counter through it.
//!
//! An artifact built for hot reloading exports one entry point per stage;
//! this trait is the in-process face of that protocol, implemented by the
//! plugin crate and re-exported through its fixed-name entry points.  The
//! state value is owned by the host and only threaded through the calls, so
//! the trait itself promises nothing about it; the demonstration plugin
//! states exactly what each of its stages does to the counter.

use vstd::prelude::*;

verus! {

/// Implementation required for a watchable library.
pub trait Watchable<State> {
    /// Called once, upon the first successful load.
    fn init() -> State;

    /// Called once per successful swap, against the incoming artifact.
    fn reload(state: &mut State);

    /// Called once per detected change, against the outgoing artifact.
    fn unload(state: &mut State);

    /// Called once per host tick.
    fn update(state: &mut State);

    /// Called at most once, on a host-initiated shutdown.
    fn finalize(state: &mut State);
}

/// The demonstration state: a single counter with a platform-stable layout,
/// identical on both sides of the load boundary.
#[derive(Clone, Copy, Debug, PartialEq, Eq, Structural)]
pub struct State {
    pub counter: i64,
}

/// Addition clamped to the `i64` range.
pub open spec fn clamped_add(c: int, d: int) -> int {
    if c + d > i64::MAX {
        i64::MAX as int
    } else if c + d < i64::MIN {
        i64::MIN as int
    } else {
        c + d
    }
}

/// A demonstration plugin: its stages nudge the counter so call order is
/// observable from the outside.  Arithmetic saturates at the ends of the
/// `i64` range instead of panicking.
pub struct Plugin;

impl Watchable<State> for Plugin {
    fn init() -> (state: State)
        ensures
            state.counter == 0,
    {
        State { counter: 0 }
    }

    fn reload(state: &mut State)
        ensures
            final(state).counter == clamped_add(old(state).counter as int, 1),
    {
        state.counter = match state.counter.checked_add(1) {
            Some(v) => v,
            None => i64::MAX,
        };
    }

    fn unload(state: &mut State)
        ensures
            final(state).counter == clamped_add(old(state).counter as int, -1),
    {
        state.counter = match state.counter.checked_sub(1) {
            Some(v) => v,
            None => i64::MIN,
        };
    }

    fn update(state: &mut State)
        ensures
            final(state).counter == clamped_add(old(state).counter as int, 11),
    {
        state.counter = match state.counter.checked_add(11) {
            Some(v) => v,
            None => i64::MAX,
        };
    }

    fn finalize(state: &mut State)
        ensures
            final(state).counter == 0,
    {
        state.counter = 0;
    }
}

} // verus!
