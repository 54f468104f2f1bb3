//! The capability surface that every member of the widget tree shares.

use vstd::prelude::*;
use crate::context::{EventCtx, LayoutCtx, LifeCycleCtx, PaintCtx, UpdateCtx};
use crate::env::Env;
use crate::event::{Event, LifeCycle};
use crate::geometry::{BoxConstraints, Size};

verus! {

/// A member of the widget tree over application data of type `T`.
///
/// The host walks the tree in five passes. For each pass a widget states two
/// predicates: `*_pre`, what must hold for the pass to be delivered, and
/// `*_post`, how the pass may leave the widget, the context and, in the event
/// pass, the data. A widget that states neither accepts every pass and
/// promises nothing about it.
pub trait Widget<T>: Sized {
    /// What the event pass needs.
    open spec fn event_pre(&self, ctx: EventCtx, event: Event, data: T, env: Env) -> bool {
        true
    }

    /// What the event pass may leave behind.
    open spec fn event_post(
        &self,
        ctx: EventCtx,
        event: Event,
        data: T,
        env: Env,
        next: Self,
        next_ctx: EventCtx,
        next_data: T,
    ) -> bool {
        true
    }

    /// What the lifecycle pass needs.
    open spec fn lifecycle_pre(&self, ctx: LifeCycleCtx, event: LifeCycle, data: T, env: Env) -> bool {
        true
    }

    /// What the lifecycle pass may leave behind.
    open spec fn lifecycle_post(
        &self,
        ctx: LifeCycleCtx,
        event: LifeCycle,
        data: T,
        env: Env,
        next: Self,
        next_ctx: LifeCycleCtx,
    ) -> bool {
        true
    }

    /// What the update pass needs.
    open spec fn update_pre(&self, ctx: UpdateCtx, old_data: T, data: T, env: Env) -> bool {
        true
    }

    /// What the update pass may leave behind.
    open spec fn update_post(
        &self,
        ctx: UpdateCtx,
        old_data: T,
        data: T,
        env: Env,
        next: Self,
        next_ctx: UpdateCtx,
    ) -> bool {
        true
    }

    /// What the layout pass needs.
    open spec fn layout_pre(&self, ctx: LayoutCtx, bc: BoxConstraints, data: T, env: Env) -> bool {
        true
    }

    /// What the layout pass may leave behind, `size` being its answer.
    open spec fn layout_post(
        &self,
        ctx: LayoutCtx,
        bc: BoxConstraints,
        data: T,
        env: Env,
        next: Self,
        next_ctx: LayoutCtx,
        size: Size,
    ) -> bool {
        true
    }

    /// What the paint pass needs.
    open spec fn paint_pre(&self, ctx: PaintCtx, data: T, env: Env) -> bool {
        true
    }

    /// What the paint pass may leave behind.
    open spec fn paint_post(&self, ctx: PaintCtx, data: T, env: Env, next: Self, next_ctx: PaintCtx) -> bool {
        true
    }

    /// Handles a transient input. It is the one pass that may change the data.
    fn event(&mut self, ctx: &mut EventCtx, event: &Event, data: &mut T, env: &Env)
        requires
            old(self).event_pre(*old(ctx), *event, *old(data), *env),
        ensures
            old(self).event_post(
                *old(ctx),
                *event,
                *old(data),
                *env,
                *final(self),
                *final(ctx),
                *final(data),
            ),
    ;

    /// Handles a change in the widget's standing in the tree.
    fn lifecycle(&mut self, ctx: &mut LifeCycleCtx, event: &LifeCycle, data: &T, env: &Env)
        requires
            old(self).lifecycle_pre(*old(ctx), *event, *data, *env),
        ensures
            old(self).lifecycle_post(*old(ctx), *event, *data, *env, *final(self), *final(ctx)),
    ;

    /// Handles a change of the data from `old_data` to `data`.
    fn update(&mut self, ctx: &mut UpdateCtx, old_data: &T, data: &T, env: &Env)
        requires
            old(self).update_pre(*old(ctx), *old_data, *data, *env),
        ensures
            old(self).update_post(*old(ctx), *old_data, *data, *env, *final(self), *final(ctx)),
    ;

    /// Chooses a size under the constraints `bc` and places the children.
    fn layout(&mut self, ctx: &mut LayoutCtx, bc: &BoxConstraints, data: &T, env: &Env) -> (size: Size)
        requires
            old(self).layout_pre(*old(ctx), *bc, *data, *env),
        ensures
            old(self).layout_post(*old(ctx), *bc, *data, *env, *final(self), *final(ctx), size),
    ;

    /// Draws the widget.
    fn paint(&mut self, ctx: &mut PaintCtx, data: &T, env: &Env)
        requires
            old(self).paint_pre(*old(ctx), *data, *env),
        ensures
            old(self).paint_post(*old(ctx), *data, *env, *final(self), *final(ctx)),
    ;
}

} // verus!
