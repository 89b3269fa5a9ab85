//! Change-tracked accessors.
//!
//! An accessor bundles a stored value, the slot's persistent [`TickPair`] and
//! an ephemeral [`TickContext`], and answers "was this value added or changed
//! since the observer last looked". Obtaining a mutable view through the
//! ordinary path ([`Mut::get_mut`] and its siblings) always stamps the change
//! tick first: mutation and flagging are inseparable there. A distinctly
//! named escape hatch (`get_mut_untracked`) gives a mutable view without
//! flagging, reserved for cases such as restoring serialized state.
//!
//! The accessor owns the value and the tick pair for the duration of the
//! access and hands both back when consumed; the storage collaborator that
//! owns the slot writes them back. The view (`@`) of an accessor is the
//! wrapped value.

use vstd::prelude::*;

use crate::tick::TickContext;
use crate::tick::TickPair;
use crate::tick::tick_in_window;

verus! {

/// Types that implement reliable change detection: queries against the
/// wrapping tick window of the accessor's context.
pub trait DetectChanges: View {
    /// The slot's persistent tick pair, as this accessor holds it.
    spec fn ticks(&self) -> TickPair;

    /// The tick context this access is judged against.
    spec fn ctx(&self) -> TickContext;

    /// True if (and only if) this value was added after the observer's last
    /// run and no later than the current one.
    fn is_added(&self) -> (r: bool)
        ensures
            r == tick_in_window(self.ticks().added, self.ctx().last_change_tick, self.ctx().change_tick),
    ;

    /// True if (and only if) this value was changed after the observer's last
    /// run and no later than the current one.
    fn is_changed(&self) -> (r: bool)
        ensures
            r == tick_in_window(self.ticks().changed, self.ctx().last_change_tick, self.ctx().change_tick),
    ;
}

/// Types that can trigger reliable change detection: manual flagging, the
/// same stamp every sanctioned mutable access applies automatically.
pub trait SetChanged: DetectChanges {
    /// Flags the value as changed at the context's current tick. Irreversible:
    /// there is no operation to unflag a value once marked. The wrapped value
    /// and the added tick are untouched.
    fn set_changed(&mut self)
        ensures
            final(self)@ == old(self)@,
            final(self).ticks().added == old(self).ticks().added,
            final(self).ticks().changed == old(self).ctx().change_tick,
            final(self).ctx() == old(self).ctx(),
    ;
}

/// Any accessor whose changed tick was stamped with its context's current
/// tick — which every sanctioned mutable access does — answers `is_changed`
/// with true under that same context, provided the context is not degenerate
/// (a context with `last == current` has an empty window and observes no
/// change at all).
pub proof fn lemma_flagging_is_observed<A: DetectChanges>(a: &A)
    requires
        a.ticks().changed == a.ctx().change_tick,
        a.ctx().last_change_tick != a.ctx().change_tick,
    ensures
        tick_in_window(a.ticks().changed, a.ctx().last_change_tick, a.ctx().change_tick),
{
    crate::tick::lemma_stamped_tick_visible(a.ctx().last_change_tick, a.ctx().change_tick);
}

/// Exclusive accessor to a resource value.
pub struct ResMut<T> {
    value: T,
    ticks: TickPair,
    ctx: TickContext,
}

/// Shared accessor to a resource value. It has no mutating operation, so it
/// can never flag the value as changed.
pub struct Res<T> {
    value: T,
    ticks: TickPair,
    ctx: TickContext,
}

/// Exclusive accessor to a resource value that is affine to one execution
/// context. Tick semantics are identical to [`ResMut`]; which thread may use
/// it is a scheduling concern decided entirely by the external scheduler.
pub struct NonSendMut<T> {
    value: T,
    ticks: TickPair,
    ctx: TickContext,
}

/// Shared accessor to a resource value that is affine to one execution
/// context. Tick semantics are identical to [`Res`].
pub struct NonSend<T> {
    value: T,
    ticks: TickPair,
    ctx: TickContext,
}

/// Exclusive accessor to an entity's component value.
pub struct Mut<T> {
    value: T,
    ticks: TickPair,
    ctx: TickContext,
}

impl<T> View for ResMut<T> {
    type V = T;

    closed spec fn view(&self) -> T {
        self.value
    }
}

impl<T> ResMut<T> {
    /// Wraps a slot's value and tick pair for one access under `ctx`.
    pub fn new(value: T, ticks: TickPair, ctx: TickContext) -> (m: Self)
        ensures
            m@ == value,
            m.ticks() == ticks,
            m.ctx() == ctx,
    {
        ResMut { value, ticks, ctx }
    }

    /// Shared view of the wrapped value; never flags it as changed.
    pub fn get(&self) -> (r: &T)
        ensures
            *r == self@,
    {
        &self.value
    }

    /// Mutable view of the wrapped value: the only sanctioned way to write
    /// it. Always stamps the change tick first.
    pub fn get_mut(&mut self) -> (r: &mut T)
        ensures
            *r == old(self)@,
            final(self)@ == *final(r),
            final(self).ticks().added == old(self).ticks().added,
            final(self).ticks().changed == old(self).ctx().change_tick,
            final(self).ctx() == old(self).ctx(),
    {
        self.ticks.set_changed(self.ctx.change_tick);
        &mut self.value
    }

    /// Escape hatch: a mutable view that does not flag the value as changed.
    /// Reserved for rare cases such as restoring serialized state.
    pub fn get_mut_untracked(&mut self) -> (r: &mut T)
        ensures
            *r == old(self)@,
            final(self)@ == *final(r),
            final(self).ticks() == old(self).ticks(),
            final(self).ctx() == old(self).ctx(),
    {
        &mut self.value
    }

    /// Consumes the accessor, flagging the value as changed exactly once at
    /// consumption time, and hands the value and the updated tick pair back
    /// for the slot.
    pub fn into_inner(self) -> (r: (T, TickPair))
        ensures
            r.0 == self@,
            r.1.added == self.ticks().added,
            r.1.changed == self.ctx().change_tick,
    {
        let ResMut { value, mut ticks, ctx } = self;
        ticks.set_changed(ctx.change_tick);
        (value, ticks)
    }

    /// Consumes the accessor without flagging, handing value and tick pair
    /// back unchanged. The consuming counterpart of the escape hatch.
    pub fn into_parts(self) -> (r: (T, TickPair))
        ensures
            r.0 == self@,
            r.1 == self.ticks(),
    {
        let ResMut { value, ticks, ctx: _ } = self;
        (value, ticks)
    }
}

impl<T> DetectChanges for ResMut<T> {
    closed spec fn ticks(&self) -> TickPair {
        self.ticks
    }

    closed spec fn ctx(&self) -> TickContext {
        self.ctx
    }

    fn is_added(&self) -> (r: bool) {
        self.ticks.is_added(self.ctx.last_change_tick, self.ctx.change_tick)
    }

    fn is_changed(&self) -> (r: bool) {
        self.ticks.is_changed(self.ctx.last_change_tick, self.ctx.change_tick)
    }
}

impl<T> SetChanged for ResMut<T> {
    fn set_changed(&mut self) {
        self.ticks.set_changed(self.ctx.change_tick);
    }
}

impl<T> View for Res<T> {
    type V = T;

    closed spec fn view(&self) -> T {
        self.value
    }
}

impl<T> Res<T> {
    /// Wraps a slot's value and tick pair for one shared access under `ctx`.
    pub fn new(value: T, ticks: TickPair, ctx: TickContext) -> (m: Self)
        ensures
            m@ == value,
            m.ticks() == ticks,
            m.ctx() == ctx,
    {
        Res { value, ticks, ctx }
    }

    /// Shared view of the wrapped value; never flags it as changed.
    pub fn get(&self) -> (r: &T)
        ensures
            *r == self@,
    {
        &self.value
    }

    /// Consumes the accessor, handing value and tick pair back unchanged: a
    /// shared access never flags anything.
    pub fn into_parts(self) -> (r: (T, TickPair))
        ensures
            r.0 == self@,
            r.1 == self.ticks(),
    {
        let Res { value, ticks, ctx: _ } = self;
        (value, ticks)
    }
}

impl<T> DetectChanges for Res<T> {
    closed spec fn ticks(&self) -> TickPair {
        self.ticks
    }

    closed spec fn ctx(&self) -> TickContext {
        self.ctx
    }

    fn is_added(&self) -> (r: bool) {
        self.ticks.is_added(self.ctx.last_change_tick, self.ctx.change_tick)
    }

    fn is_changed(&self) -> (r: bool) {
        self.ticks.is_changed(self.ctx.last_change_tick, self.ctx.change_tick)
    }
}

impl<T> View for NonSendMut<T> {
    type V = T;

    closed spec fn view(&self) -> T {
        self.value
    }
}

impl<T> NonSendMut<T> {
    /// Wraps a slot's value and tick pair for one access under `ctx`.
    pub fn new(value: T, ticks: TickPair, ctx: TickContext) -> (m: Self)
        ensures
            m@ == value,
            m.ticks() == ticks,
            m.ctx() == ctx,
    {
        NonSendMut { value, ticks, ctx }
    }

    /// Shared view of the wrapped value; never flags it as changed.
    pub fn get(&self) -> (r: &T)
        ensures
            *r == self@,
    {
        &self.value
    }

    /// Mutable view of the wrapped value: the only sanctioned way to write
    /// it. Always stamps the change tick first.
    pub fn get_mut(&mut self) -> (r: &mut T)
        ensures
            *r == old(self)@,
            final(self)@ == *final(r),
            final(self).ticks().added == old(self).ticks().added,
            final(self).ticks().changed == old(self).ctx().change_tick,
            final(self).ctx() == old(self).ctx(),
    {
        self.ticks.set_changed(self.ctx.change_tick);
        &mut self.value
    }

    /// Escape hatch: a mutable view that does not flag the value as changed.
    pub fn get_mut_untracked(&mut self) -> (r: &mut T)
        ensures
            *r == old(self)@,
            final(self)@ == *final(r),
            final(self).ticks() == old(self).ticks(),
            final(self).ctx() == old(self).ctx(),
    {
        &mut self.value
    }

    /// Consumes the accessor, flagging the value as changed exactly once at
    /// consumption time, and hands the value and the updated tick pair back.
    pub fn into_inner(self) -> (r: (T, TickPair))
        ensures
            r.0 == self@,
            r.1.added == self.ticks().added,
            r.1.changed == self.ctx().change_tick,
    {
        let NonSendMut { value, mut ticks, ctx } = self;
        ticks.set_changed(ctx.change_tick);
        (value, ticks)
    }

    /// Consumes the accessor without flagging, handing value and tick pair
    /// back unchanged.
    pub fn into_parts(self) -> (r: (T, TickPair))
        ensures
            r.0 == self@,
            r.1 == self.ticks(),
    {
        let NonSendMut { value, ticks, ctx: _ } = self;
        (value, ticks)
    }
}

impl<T> DetectChanges for NonSendMut<T> {
    closed spec fn ticks(&self) -> TickPair {
        self.ticks
    }

    closed spec fn ctx(&self) -> TickContext {
        self.ctx
    }

    fn is_added(&self) -> (r: bool) {
        self.ticks.is_added(self.ctx.last_change_tick, self.ctx.change_tick)
    }

    fn is_changed(&self) -> (r: bool) {
        self.ticks.is_changed(self.ctx.last_change_tick, self.ctx.change_tick)
    }
}

impl<T> SetChanged for NonSendMut<T> {
    fn set_changed(&mut self) {
        self.ticks.set_changed(self.ctx.change_tick);
    }
}

impl<T> View for NonSend<T> {
    type V = T;

    closed spec fn view(&self) -> T {
        self.value
    }
}

impl<T> NonSend<T> {
    /// Wraps a slot's value and tick pair for one shared access under `ctx`.
    pub fn new(value: T, ticks: TickPair, ctx: TickContext) -> (m: Self)
        ensures
            m@ == value,
            m.ticks() == ticks,
            m.ctx() == ctx,
    {
        NonSend { value, ticks, ctx }
    }

    /// Shared view of the wrapped value; never flags it as changed.
    pub fn get(&self) -> (r: &T)
        ensures
            *r == self@,
    {
        &self.value
    }

    /// Consumes the accessor, handing value and tick pair back unchanged.
    pub fn into_parts(self) -> (r: (T, TickPair))
        ensures
            r.0 == self@,
            r.1 == self.ticks(),
    {
        let NonSend { value, ticks, ctx: _ } = self;
        (value, ticks)
    }
}

impl<T> DetectChanges for NonSend<T> {
    closed spec fn ticks(&self) -> TickPair {
        self.ticks
    }

    closed spec fn ctx(&self) -> TickContext {
        self.ctx
    }

    fn is_added(&self) -> (r: bool) {
        self.ticks.is_added(self.ctx.last_change_tick, self.ctx.change_tick)
    }

    fn is_changed(&self) -> (r: bool) {
        self.ticks.is_changed(self.ctx.last_change_tick, self.ctx.change_tick)
    }
}

impl<T> View for Mut<T> {
    type V = T;

    closed spec fn view(&self) -> T {
        self.value
    }
}

impl<T> Mut<T> {
    /// Wraps a slot's value and tick pair for one access under `ctx`.
    pub fn new(value: T, ticks: TickPair, ctx: TickContext) -> (m: Self)
        ensures
            m@ == value,
            m.ticks() == ticks,
            m.ctx() == ctx,
    {
        Mut { value, ticks, ctx }
    }

    /// Shared view of the wrapped value; never flags it as changed.
    pub fn get(&self) -> (r: &T)
        ensures
            *r == self@,
    {
        &self.value
    }

    /// Mutable view of the wrapped value: the only sanctioned way to write
    /// it. Always stamps the change tick first.
    pub fn get_mut(&mut self) -> (r: &mut T)
        ensures
            *r == old(self)@,
            final(self)@ == *final(r),
            final(self).ticks().added == old(self).ticks().added,
            final(self).ticks().changed == old(self).ctx().change_tick,
            final(self).ctx() == old(self).ctx(),
    {
        self.ticks.set_changed(self.ctx.change_tick);
        &mut self.value
    }

    /// Escape hatch: a mutable view that does not flag the value as changed.
    pub fn get_mut_untracked(&mut self) -> (r: &mut T)
        ensures
            *r == old(self)@,
            final(self)@ == *final(r),
            final(self).ticks() == old(self).ticks(),
            final(self).ctx() == old(self).ctx(),
    {
        &mut self.value
    }

    /// Consumes the accessor, flagging the value as changed exactly once at
    /// consumption time, and hands the value and the updated tick pair back.
    pub fn into_inner(self) -> (r: (T, TickPair))
        ensures
            r.0 == self@,
            r.1.added == self.ticks().added,
            r.1.changed == self.ctx().change_tick,
    {
        let Mut { value, mut ticks, ctx } = self;
        ticks.set_changed(ctx.change_tick);
        (value, ticks)
    }

    /// Consumes the accessor without flagging, handing value and tick pair
    /// back unchanged.
    pub fn into_parts(self) -> (r: (T, TickPair))
        ensures
            r.0 == self@,
            r.1 == self.ticks(),
    {
        let Mut { value, ticks, ctx: _ } = self;
        (value, ticks)
    }
}

impl<T> DetectChanges for Mut<T> {
    closed spec fn ticks(&self) -> TickPair {
        self.ticks
    }

    closed spec fn ctx(&self) -> TickContext {
        self.ctx
    }

    fn is_added(&self) -> (r: bool) {
        self.ticks.is_added(self.ctx.last_change_tick, self.ctx.change_tick)
    }

    fn is_changed(&self) -> (r: bool) {
        self.ticks.is_changed(self.ctx.last_change_tick, self.ctx.change_tick)
    }
}

impl<T> SetChanged for Mut<T> {
    fn set_changed(&mut self) {
        self.ticks.set_changed(self.ctx.change_tick);
    }
}

} // verus!
