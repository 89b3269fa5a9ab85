//! Wrapping tick arithmetic: the bitemporal comparison underlying change
//! detection.
//!
//! A tick is a monotonically advancing 32-bit counter that wraps around on
//! overflow. Whether an event tick lies "after the last observation and no
//! later than now" is decided with wrapping-unsigned subtraction, so the
//! answer stays correct across a wraparound of the counter.

use vstd::prelude::*;

verus! {

/// Wrapping distance from `t` back up to `from`: how many ticks ago `t` was,
/// as seen from `from`, on the wrapping 32-bit counter.
pub open spec fn ticks_since(from: u32, t: u32) -> u32 {
    vstd::wrapping::u32_specs::wrapping_sub(from, t)
}

/// A tick `t` falls in the change window of the context `(last, current)`
/// when it lies strictly after `last` and no later than `current`, measured
/// in wrapping distance from `current`.
pub open spec fn tick_in_window(t: u32, last: u32, current: u32) -> bool {
    ticks_since(current, t) < ticks_since(current, last)
}

/// Ephemeral snapshot of the two ticks an access is judged against: the tick
/// recorded at the end of the observer's previous run, and the tick of the
/// current run. Constructed per access and never persisted.
#[derive(Clone, Copy, Debug, PartialEq, Eq, Structural)]
pub struct TickContext {
    pub last_change_tick: u32,
    pub change_tick: u32,
}

/// Persistent pair of ticks owned by the slot that holds a component or
/// resource: the tick at which the value was added, and the tick at which it
/// was last flagged as changed.
#[derive(Clone, Copy, Debug, PartialEq, Eq, Structural)]
pub struct TickPair {
    pub added: u32,
    pub changed: u32,
}

impl TickPair {
    /// A fresh pair, as created at slot-creation time: both ticks equal the
    /// creation tick, so a new value counts as both added and changed.
    pub fn new(creation_tick: u32) -> (t: TickPair)
        ensures
            t.added == creation_tick,
            t.changed == creation_tick,
    {
        TickPair { added: creation_tick, changed: creation_tick }
    }

    /// True exactly when the added tick falls strictly after
    /// `last_change_tick` and no later than `change_tick`, in wrapping order.
    pub fn is_added(&self, last_change_tick: u32, change_tick: u32) -> (r: bool)
        ensures
            r == tick_in_window(self.added, last_change_tick, change_tick),
    {
        change_tick.wrapping_sub(self.added) < change_tick.wrapping_sub(last_change_tick)
    }

    /// True exactly when the changed tick falls strictly after
    /// `last_change_tick` and no later than `change_tick`, in wrapping order.
    pub fn is_changed(&self, last_change_tick: u32, change_tick: u32) -> (r: bool)
        ensures
            r == tick_in_window(self.changed, last_change_tick, change_tick),
    {
        change_tick.wrapping_sub(self.changed) < change_tick.wrapping_sub(last_change_tick)
    }

    /// Unconditionally stamps the changed tick with `change_tick`.
    /// Irreversible: nothing unflags a value once marked.
    pub fn set_changed(&mut self, change_tick: u32)
        ensures
            final(self).changed == change_tick,
            final(self).added == old(self).added,
    {
        self.changed = change_tick;
    }
}

/// In an unwrapped context (`last <= current`), the window is exactly the
/// plain interval: `t` is in the window iff `last < t <= current`.
pub proof fn lemma_window_unwrapped(t: u32, last: u32, current: u32)
    requires
        last <= current,
    ensures
        tick_in_window(t, last, current) <==> (last < t && t <= current),
{
}

/// The window test depends only on wrapping distances, so it is invariant
/// under shifting every tick by the same amount: the comparison stays correct
/// when the counter wraps.
pub proof fn lemma_window_shift(t: u32, last: u32, current: u32, d: u32)
    ensures
        tick_in_window(t, last, current) == tick_in_window(
            vstd::wrapping::u32_specs::wrapping_add(t, d),
            vstd::wrapping::u32_specs::wrapping_add(last, d),
            vstd::wrapping::u32_specs::wrapping_add(current, d),
        ),
{
}

/// A tick stamped with the context's current tick is seen as changed by that
/// same context, provided the context is not degenerate (`last != current`).
pub proof fn lemma_stamped_tick_visible(last: u32, current: u32)
    requires
        last != current,
    ensures
        tick_in_window(current, last, current),
{
}

/// A degenerate context (`last == current`) has an empty window: no tick at
/// all counts as added or changed under it.
pub proof fn lemma_degenerate_window_empty(t: u32, current: u32)
    ensures
        !tick_in_window(t, current, current),
{
}

} // verus!
