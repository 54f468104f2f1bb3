//! What follows from the switcher's description of its passes.

use vstd::prelude::*;
use crate::context::{LayoutCtx, LifeCycleCtx, Request, UpdateCtx};
use crate::data::Data;
use crate::env::Env;
use crate::event::LifeCycle;
use crate::geometry::{BoxConstraints, Point, Size};
use crate::switcher::ViewSwitcher;
use crate::widget::Widget;

verus! {

/// An update pass in which the picker can only answer a discriminator that is
/// the same as the stored one keeps the child and the stored discriminator,
/// and the child gets the pass once: the occupant of the slot is the old
/// occupant after one update pass with the same context, data and
/// environment, and the slot's bookkeeping is untouched.
pub proof fn update_same_keeps_child<T, U, W, P, B>(
    s: ViewSwitcher<T, U, W, P, B>,
    ctx: UpdateCtx,
    old_data: T,
    data: T,
    env: Env,
    next: ViewSwitcher<T, U, W, P, B>,
    next_ctx: UpdateCtx,
) where T: Data, U: Data, W: Widget<T>, P: Fn(&T, &Env) -> U, B: Fn(&U, &T, &Env) -> W
    requires
        s.update_ensures(ctx, old_data, data, env, next, next_ctx),
        forall|id: U| s.picks(data, env, id) ==> !s.switches_on(id),
    ensures
        next.child_id() == s.child_id(),
        next.child() is Some,
        s.child()->Some_0@.inner.update_post(
            ctx,
            old_data,
            data,
            env,
            next.child()->Some_0@.inner,
            next_ctx,
        ),
        s.child()->Some_0.same_slot(next.child()->Some_0),
{
}

/// An update pass in which the picker can only answer a discriminator that is
/// not the same as the stored one replaces the child: for a discriminator
/// that the picker answered, the slot holds what the builder answered on that
/// discriminator and the new data, that discriminator is stored, and the host
/// has been told that the children changed, once and as the last thing asked
/// in the pass.
pub proof fn update_changed_rebuilds<T, U, W, P, B>(
    s: ViewSwitcher<T, U, W, P, B>,
    ctx: UpdateCtx,
    old_data: T,
    data: T,
    env: Env,
    next: ViewSwitcher<T, U, W, P, B>,
    next_ctx: UpdateCtx,
) where T: Data, U: Data, W: Widget<T>, P: Fn(&T, &Env) -> U, B: Fn(&U, &T, &Env) -> W
    requires
        s.update_ensures(ctx, old_data, data, env, next, next_ctx),
        forall|id: U| s.picks(data, env, id) ==> s.switches_on(id),
    ensures
        next.child() is Some,
        exists|id: U|
            {
                &&& #[trigger] s.picks(data, env, id)
                &&& next.child_id() == Some(id)
                &&& call_ensures(s.builder(), (&id, &data, &env), next.child()->Some_0@.inner)
            },
        next_ctx@ == ctx@.push(Request::ChildrenChanged),
        next_ctx@.len() == ctx@.len() + 1,
{
}

/// The update pass that replaces the child does not reach the new child: the
/// new child stands in its slot as the builder made it, has not been told
/// that it was added, lies at the origin and has no size. What the pass asked
/// of the host is what it had asked before and the one notice of the change;
/// the new child has added nothing.
pub proof fn update_changed_leaves_child_untouched<T, U, W, P, B>(
    s: ViewSwitcher<T, U, W, P, B>,
    ctx: UpdateCtx,
    old_data: T,
    data: T,
    env: Env,
    next: ViewSwitcher<T, U, W, P, B>,
    next_ctx: UpdateCtx,
) where T: Data, U: Data, W: Widget<T>, P: Fn(&T, &Env) -> U, B: Fn(&U, &T, &Env) -> W
    requires
        s.update_ensures(ctx, old_data, data, env, next, next_ctx),
        forall|id: U| s.picks(data, env, id) ==> s.switches_on(id),
    ensures
        next.child() is Some,
        next.child()->Some_0.is_fresh(),
        !next.child()->Some_0@.initialized,
        exists|id: U| #[trigger]
            s.picks(data, env, id) && s.built_for(id, data, env, next.child()->Some_0),
        next_ctx@.drop_last() == ctx@,
{
    assert(ctx@.push(Request::ChildrenChanged).drop_last() =~= ctx@);
}

/// What sets a new child up is the host's next search for new widgets, a
/// lifecycle pass of its own: the child, which has seen nothing so far, gets
/// `WidgetAdded` with the data of that pass and counts as set up afterwards.
/// The switcher neither asks the picker nor builds anything in it.
pub proof fn route_sets_up_new_child<T, U, W, P, B>(
    s: ViewSwitcher<T, U, W, P, B>,
    ctx: LifeCycleCtx,
    data: T,
    env: Env,
    next: ViewSwitcher<T, U, W, P, B>,
    next_ctx: LifeCycleCtx,
) where T: Data, U: Data, W: Widget<T>, P: Fn(&T, &Env) -> U, B: Fn(&U, &T, &Env) -> W
    requires
        s.child() is Some,
        !s.child()->Some_0@.initialized,
        s.lifecycle_ensures(ctx, LifeCycle::RouteWidgetAdded, data, env, next, next_ctx),
    ensures
        next.child_id() == s.child_id(),
        next.child() is Some,
        next.child()->Some_0@.initialized,
        s.child()->Some_0@.inner.lifecycle_post(
            ctx,
            LifeCycle::WidgetAdded,
            data,
            env,
            next.child()->Some_0@.inner,
            next_ctx,
        ),
{
}

/// A layout pass on a switcher with a child answers the size that the child
/// chose under the same constraints, whatever they are, and leaves the child
/// at the origin, with that size noted in its slot.
pub proof fn layout_passes_through<T, U, W, P, B>(
    s: ViewSwitcher<T, U, W, P, B>,
    ctx: LayoutCtx,
    bc: BoxConstraints,
    data: T,
    env: Env,
    next: ViewSwitcher<T, U, W, P, B>,
    next_ctx: LayoutCtx,
    size: Size,
) where T: Data, U: Data, W: Widget<T>, P: Fn(&T, &Env) -> U, B: Fn(&U, &T, &Env) -> W
    requires
        s.child() is Some,
        s.layout_ensures(ctx, bc, data, env, next, next_ctx, size),
    ensures
        next.child() is Some,
        s.child()->Some_0@.inner.layout_post(
            ctx,
            bc,
            data,
            env,
            next.child()->Some_0@.inner,
            next_ctx,
            size,
        ),
        next.child()->Some_0@.origin == Point::spec_origin(),
        next.child()->Some_0@.size == size,
        next.child_id() == s.child_id(),
{
}

/// A layout pass on a switcher without a child answers the largest size that
/// the constraints admit, and changes nothing.
pub proof fn layout_without_child_is_max<T, U, W, P, B>(
    s: ViewSwitcher<T, U, W, P, B>,
    ctx: LayoutCtx,
    bc: BoxConstraints,
    data: T,
    env: Env,
    next: ViewSwitcher<T, U, W, P, B>,
    next_ctx: LayoutCtx,
    size: Size,
) where T: Data, U: Data, W: Widget<T>, P: Fn(&T, &Env) -> U, B: Fn(&U, &T, &Env) -> W
    requires
        s.child() is None,
        s.layout_ensures(ctx, bc, data, env, next, next_ctx, size),
    ensures
        size == bc.max,
        next.child() is None,
        next.child_id() == s.child_id(),
        next_ctx == ctx,
{
}

} // verus!
