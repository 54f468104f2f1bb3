//! The slot that holds one child widget for its parent.

use vstd::prelude::*;
use crate::context::{EventCtx, LayoutCtx, LifeCycleCtx, PaintCtx, UpdateCtx};
use crate::env::Env;
use crate::event::{Event, LifeCycle};
use crate::geometry::{BoxConstraints, Point, Size};
use crate::widget::Widget;

verus! {

/// What a slot amounts to: its occupant and the slot's own bookkeeping.
pub struct PodView<W> {
    /// The occupant.
    pub inner: W,
    /// Whether the occupant has been told that it was added to the tree.
    pub initialized: bool,
    /// Where the parent has placed the occupant.
    pub origin: Point,
    /// The size that the occupant chose in its last layout pass.
    pub size: Size,
}

/// A slot with one widget in it. It hands every pass on to the widget and
/// keeps, for the parent, the widget's place and size and whether the widget
/// has been set up.
pub struct WidgetPod<T, W> {
    inner: W,
    initialized: bool,
    origin: Point,
    size: Size,
    marker: core::marker::PhantomData<T>,
}

impl<T, W> View for WidgetPod<T, W> {
    type V = PodView<W>;

    closed spec fn view(&self) -> PodView<W> {
        PodView {
            inner: self.inner,
            initialized: self.initialized,
            origin: self.origin,
            size: self.size,
        }
    }
}

impl<T, W: Widget<T>> WidgetPod<T, W> {
    /// A slot as `new` makes it: the occupant has seen no pass, lies at the
    /// origin and has no size yet.
    pub open spec fn is_fresh(&self) -> bool {
        &&& !self@.initialized
        &&& self@.origin == Point::spec_origin()
        &&& self@.size == Size::spec_zero()
    }

    /// The bookkeeping of `next` is that of `self`.
    pub open spec fn same_slot(&self, next: Self) -> bool {
        &&& next@.initialized == self@.initialized
        &&& next@.origin == self@.origin
        &&& next@.size == self@.size
    }

    /// What the event pass needs: what the occupant needs.
    pub open spec fn event_pre(&self, ctx: EventCtx, event: Event, data: T, env: Env) -> bool {
        self@.inner.event_pre(ctx, event, data, env)
    }

    /// The occupant has handled the event; the bookkeeping is unchanged.
    pub open spec fn event_post(
        &self,
        ctx: EventCtx,
        event: Event,
        data: T,
        env: Env,
        next: Self,
        next_ctx: EventCtx,
        next_data: T,
    ) -> bool {
        &&& self@.inner.event_post(ctx, event, data, env, next@.inner, next_ctx, next_data)
        &&& self.same_slot(next)
    }

    /// The signal that reaches the occupant when `event` reaches the slot:
    /// `WidgetAdded` in place of `RouteWidgetAdded` where the occupant is
    /// new, else `event` itself.
    pub open spec fn delivered(&self, event: LifeCycle) -> LifeCycle {
        if event == LifeCycle::RouteWidgetAdded && !self@.initialized {
            LifeCycle::WidgetAdded
        } else {
            event
        }
    }

    /// What the lifecycle pass needs: what the occupant needs for the signal
    /// that reaches it.
    pub open spec fn lifecycle_pre(&self, ctx: LifeCycleCtx, event: LifeCycle, data: T, env: Env) -> bool {
        self@.inner.lifecycle_pre(ctx, self.delivered(event), data, env)
    }

    /// The occupant has handled the signal that reached it, and counts as
    /// set up once that signal was `WidgetAdded`.
    pub open spec fn lifecycle_post(
        &self,
        ctx: LifeCycleCtx,
        event: LifeCycle,
        data: T,
        env: Env,
        next: Self,
        next_ctx: LifeCycleCtx,
    ) -> bool {
        &&& self@.inner.lifecycle_post(ctx, self.delivered(event), data, env, next@.inner, next_ctx)
        &&& next@.initialized == (self@.initialized || self.delivered(event) == LifeCycle::WidgetAdded)
        &&& next@.origin == self@.origin
        &&& next@.size == self@.size
    }

    /// What the update pass needs: what the occupant needs.
    pub open spec fn update_pre(&self, ctx: UpdateCtx, old_data: T, data: T, env: Env) -> bool {
        self@.inner.update_pre(ctx, old_data, data, env)
    }

    /// The occupant has handled the change of data; the bookkeeping is
    /// unchanged.
    pub open spec fn update_post(
        &self,
        ctx: UpdateCtx,
        old_data: T,
        data: T,
        env: Env,
        next: Self,
        next_ctx: UpdateCtx,
    ) -> bool {
        &&& self@.inner.update_post(ctx, old_data, data, env, next@.inner, next_ctx)
        &&& self.same_slot(next)
    }

    /// What the layout pass needs: what the occupant needs.
    pub open spec fn layout_pre(&self, ctx: LayoutCtx, bc: BoxConstraints, data: T, env: Env) -> bool {
        self@.inner.layout_pre(ctx, bc, data, env)
    }

    /// The occupant has chosen `size`, which the slot has noted; the
    /// occupant's place is unchanged.
    pub open spec fn layout_post(
        &self,
        ctx: LayoutCtx,
        bc: BoxConstraints,
        data: T,
        env: Env,
        next: Self,
        next_ctx: LayoutCtx,
        size: Size,
    ) -> bool {
        &&& self@.inner.layout_post(ctx, bc, data, env, next@.inner, next_ctx, size)
        &&& next@.initialized == self@.initialized
        &&& next@.origin == self@.origin
        &&& next@.size == size
    }

    /// What the paint pass needs: what the occupant needs.
    pub open spec fn paint_pre(&self, ctx: PaintCtx, data: T, env: Env) -> bool {
        self@.inner.paint_pre(ctx, data, env)
    }

    /// The occupant has drawn itself; the bookkeeping is unchanged.
    pub open spec fn paint_post(&self, ctx: PaintCtx, data: T, env: Env, next: Self, next_ctx: PaintCtx) -> bool {
        &&& self@.inner.paint_post(ctx, data, env, next@.inner, next_ctx)
        &&& self.same_slot(next)
    }

    /// Puts `inner` into a slot of its own.
    pub fn new(inner: W) -> (pod: Self)
        ensures
            pod@.inner == inner,
            pod.is_fresh(),
    {
        WidgetPod {
            inner,
            initialized: false,
            origin: Point::origin(),
            size: Size::zero(),
            marker: core::marker::PhantomData,
        }
    }

    /// The occupant.
    pub fn widget(&self) -> (w: &W)
        ensures
            *w == self@.inner,
    {
        &self.inner
    }

    /// Whether the occupant has been told that it was added to the tree.
    pub fn is_initialized(&self) -> (b: bool)
        ensures
            b == self@.initialized,
    {
        self.initialized
    }

    /// Where the parent has placed the occupant.
    pub fn origin(&self) -> (p: Point)
        ensures
            p == self@.origin,
    {
        self.origin
    }

    /// The size that the occupant chose in its last layout pass.
    pub fn size(&self) -> (s: Size)
        ensures
            s == self@.size,
    {
        self.size
    }

    /// Places the occupant at `origin`, in the parent's coordinates.
    pub fn set_origin(&mut self, origin: Point)
        ensures
            final(self)@ == (PodView { origin, ..old(self)@ }),
    {
        self.origin = origin;
    }

    /// Hands the event pass on to the occupant.
    pub fn event(&mut self, ctx: &mut EventCtx, event: &Event, data: &mut T, env: &Env)
        requires
            old(self).event_pre(*old(ctx), *event, *old(data), *env),
        ensures
            old(self).event_post(
                *old(ctx),
                *event,
                *old(data),
                *env,
                *final(self),
                *final(ctx),
                *final(data),
            ),
    {
        self.inner.event(ctx, event, data, env);
    }

    /// Hands the lifecycle pass on to the occupant, and notes whether the
    /// occupant has now been set up. A new occupant gets `WidgetAdded` where
    /// the host sent `RouteWidgetAdded`.
    pub fn lifecycle(&mut self, ctx: &mut LifeCycleCtx, event: &LifeCycle, data: &T, env: &Env)
        requires
            old(self).lifecycle_pre(*old(ctx), *event, *data, *env),
        ensures
            old(self).lifecycle_post(*old(ctx), *event, *data, *env, *final(self), *final(ctx)),
    {
        match event {
            LifeCycle::WidgetAdded => {
                self.initialized = true;
                self.inner.lifecycle(ctx, event, data, env);
            },
            LifeCycle::RouteWidgetAdded => {
                if self.initialized {
                    self.inner.lifecycle(ctx, event, data, env);
                } else {
                    self.initialized = true;
                    self.inner.lifecycle(ctx, &LifeCycle::WidgetAdded, data, env);
                }
            },
            _ => {
                self.inner.lifecycle(ctx, event, data, env);
            },
        }
    }

    /// Hands the update pass on to the occupant.
    pub fn update(&mut self, ctx: &mut UpdateCtx, old_data: &T, data: &T, env: &Env)
        requires
            old(self).update_pre(*old(ctx), *old_data, *data, *env),
        ensures
            old(self).update_post(*old(ctx), *old_data, *data, *env, *final(self), *final(ctx)),
    {
        self.inner.update(ctx, old_data, data, env);
    }

    /// Hands the layout pass on to the occupant and notes the size that it
    /// chose. Placing the occupant is left to the caller.
    pub fn layout(&mut self, ctx: &mut LayoutCtx, bc: &BoxConstraints, data: &T, env: &Env) -> (size: Size)
        requires
            old(self).layout_pre(*old(ctx), *bc, *data, *env),
        ensures
            old(self).layout_post(*old(ctx), *bc, *data, *env, *final(self), *final(ctx), size),
    {
        let size = self.inner.layout(ctx, bc, data, env);
        self.size = size;
        size
    }

    /// Hands the paint pass on to the occupant as it is, for an occupant
    /// whose place was settled in the layout pass.
    pub fn paint_raw(&mut self, ctx: &mut PaintCtx, data: &T, env: &Env)
        requires
            old(self).paint_pre(*old(ctx), *data, *env),
        ensures
            old(self).paint_post(*old(ctx), *data, *env, *final(self), *final(ctx)),
    {
        self.inner.paint(ctx, data, env);
    }
}

} // verus!
