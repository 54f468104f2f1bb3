//! The switching node.

use vstd::prelude::*;
use crate::context::{EventCtx, LayoutCtx, LifeCycleCtx, PaintCtx, Request, UpdateCtx};
use crate::data::Data;
use crate::env::Env;
use crate::event::{Event, LifeCycle};
use crate::geometry::{BoxConstraints, Point, Size};
use crate::pod::WidgetPod;
use crate::widget::Widget;

verus! {

/// A widget that switches dynamically between multiple children.
///
/// It holds at most one child. The picker projects the data and the
/// environment to a discriminator of type `U`; the builder makes the child
/// for a discriminator. The child is built when the switcher is added to the
/// tree, and built anew whenever an update pass finds a discriminator that is
/// not the same as the one the present child was built for.
pub struct ViewSwitcher<T, U, W, P, B> {
    child_picker: P,
    child_builder: B,
    active_child: Option<WidgetPod<T, W>>,
    active_child_id: Option<U>,
}

impl<T, U, W, P, B> ViewSwitcher<T, U, W, P, B> where
    T: Data,
    U: Data,
    W: Widget<T>,
    P: Fn(&T, &Env) -> U,
    B: Fn(&U, &T, &Env) -> W,
 {
    /// The function that projects data and environment to a discriminator.
    pub closed spec fn picker(&self) -> P {
        self.child_picker
    }

    /// The function that makes the child for a discriminator.
    pub closed spec fn builder(&self) -> B {
        self.child_builder
    }

    /// The slot of the active child, if there is one.
    pub closed spec fn child(&self) -> Option<WidgetPod<T, W>> {
        self.active_child
    }

    /// The discriminator that the active child was built for.
    pub closed spec fn child_id(&self) -> Option<U> {
        self.active_child_id
    }

    /// The child and its discriminator come and go together.
    pub open spec fn inv(&self) -> bool {
        self.child() is Some <==> self.child_id() is Some
    }

    /// The picker may be called on `data` and `env`.
    pub open spec fn can_pick(&self, data: T, env: Env) -> bool {
        call_requires(self.picker(), (&data, &env))
    }

    /// `id` is what the picker may answer on `data` and `env`.
    pub open spec fn picks(&self, data: T, env: Env, id: U) -> bool {
        call_ensures(self.picker(), (&data, &env), id)
    }

    /// The builder may be called on `id`, `data` and `env`.
    pub open spec fn can_build(&self, id: U, data: T, env: Env) -> bool {
        call_requires(self.builder(), (&id, &data, &env))
    }

    /// `pod` is a slot as it stands right after the builder has answered on
    /// `id`, `data` and `env`: it holds that answer, and no pass has reached
    /// it.
    pub open spec fn built_for(&self, id: U, data: T, env: Env, pod: WidgetPod<T, W>) -> bool {
        &&& call_ensures(self.builder(), (&id, &data, &env), pod@.inner)
        &&& pod.is_fresh()
    }

    /// `next` has the picker and the builder of `self`.
    pub open spec fn same_functions(&self, next: Self) -> bool {
        &&& next.picker() == self.picker()
        &&& next.builder() == self.builder()
    }

    /// An update pass that finds `id` has to replace the child.
    pub open spec fn switches_on(&self, id: U) -> bool {
        !id.same_spec(&self.child_id()->Some_0)
    }

    /// What the update pass leaves behind once the picker has answered `id`.
    /// Where `id` is the same as the present discriminator the child gets the
    /// pass and the discriminator stays as it was stored. Otherwise a newly
    /// built child stands in the slot, `id` is stored, the host has been told
    /// once that the children changed, and the pass has not reached the new
    /// child.
    pub open spec fn update_with(
        &self,
        id: U,
        ctx: UpdateCtx,
        old_data: T,
        data: T,
        env: Env,
        next: Self,
        next_ctx: UpdateCtx,
    ) -> bool {
        &&& next.child() is Some
        &&& if self.switches_on(id) {
            &&& next.child_id() == Some(id)
            &&& self.built_for(id, data, env, next.child()->Some_0)
            &&& next_ctx@ == ctx@.push(Request::ChildrenChanged)
        } else {
            &&& next.child_id() == self.child_id()
            &&& self.child()->Some_0.update_post(ctx, old_data, data, env, next.child()->Some_0, next_ctx)
        }
    }

    /// The child, if there is one, can take the event.
    pub open spec fn event_requires(&self, ctx: EventCtx, event: Event, data: T, env: Env) -> bool {
        self.child() is Some ==> self.child()->Some_0.event_pre(ctx, event, data, env)
    }

    /// The child, if there is one, has got the event. Nothing else has
    /// changed.
    pub open spec fn event_ensures(
        &self,
        ctx: EventCtx,
        event: Event,
        data: T,
        env: Env,
        next: Self,
        next_ctx: EventCtx,
        next_data: T,
    ) -> bool {
        &&& self.same_functions(next)
        &&& next.child_id() == self.child_id()
        &&& match self.child() {
            Some(child) => {
                &&& next.child() is Some
                &&& child.event_post(ctx, event, data, env, next.child()->Some_0, next_ctx, next_data)
            },
            None => {
                &&& next.child() is None
                &&& next_ctx == ctx
                &&& next_data == data
            },
        }
    }

    /// On `WidgetAdded` the picker can be called, the builder can be called
    /// on what the picker answers, and the child that comes of it can take
    /// the signal. On any other signal the child, if there is one, can take
    /// it.
    pub open spec fn lifecycle_requires(&self, ctx: LifeCycleCtx, event: LifeCycle, data: T, env: Env) -> bool {
        if event == LifeCycle::WidgetAdded {
            &&& self.can_pick(data, env)
            &&& forall|id: U| #[trigger] self.picks(data, env, id) ==> self.can_build(id, data, env)
            &&& forall|id: U, pod: WidgetPod<T, W>|
                self.picks(data, env, id) && #[trigger] self.built_for(id, data, env, pod)
                    ==> pod.lifecycle_pre(ctx, event, data, env)
        } else {
            self.child() is Some ==> self.child()->Some_0.lifecycle_pre(ctx, event, data, env)
        }
    }

    /// On `WidgetAdded` a child was built for the discriminator that the
    /// picker answered, the discriminator is stored, and that child has got
    /// the signal. On any other signal the child, if there is one, has got
    /// it, and nothing else has changed.
    pub open spec fn lifecycle_ensures(
        &self,
        ctx: LifeCycleCtx,
        event: LifeCycle,
        data: T,
        env: Env,
        next: Self,
        next_ctx: LifeCycleCtx,
    ) -> bool {
        &&& self.same_functions(next)
        &&& if event == LifeCycle::WidgetAdded {
            exists|id: U, pod: WidgetPod<T, W>|
                {
                    &&& self.picks(data, env, id)
                    &&& #[trigger] self.built_for(id, data, env, pod)
                    &&& next.child_id() == Some(id)
                    &&& next.child() is Some
                    &&& pod.lifecycle_post(ctx, event, data, env, next.child()->Some_0, next_ctx)
                }
        } else {
            &&& next.child_id() == self.child_id()
            &&& match self.child() {
                Some(child) => {
                    &&& next.child() is Some
                    &&& child.lifecycle_post(ctx, event, data, env, next.child()->Some_0, next_ctx)
                },
                None => {
                    &&& next.child() is None
                    &&& next_ctx == ctx
                },
            }
        }
    }

    /// A child stands in the slot with its discriminator, the picker can be
    /// called, and for whatever it answers either the child can take the
    /// pass or the builder can be called.
    pub open spec fn update_requires(&self, ctx: UpdateCtx, old_data: T, data: T, env: Env) -> bool {
        &&& self.inv()
        &&& self.child_id() is Some
        &&& self.can_pick(data, env)
        &&& forall|id: U| #[trigger]
            self.picks(data, env, id) ==> if self.switches_on(id) {
                self.can_build(id, data, env)
            } else {
                self.child()->Some_0.update_pre(ctx, old_data, data, env)
            }
    }

    /// The picker has answered some discriminator, and the pass has gone as
    /// `update_with` says for it.
    pub open spec fn update_ensures(
        &self,
        ctx: UpdateCtx,
        old_data: T,
        data: T,
        env: Env,
        next: Self,
        next_ctx: UpdateCtx,
    ) -> bool {
        &&& self.same_functions(next)
        &&& exists|id: U|
            {
                &&& #[trigger] self.picks(data, env, id)
                &&& self.update_with(id, ctx, old_data, data, env, next, next_ctx)
            }
    }

    /// The child, if there is one, can take the pass.
    pub open spec fn layout_requires(&self, ctx: LayoutCtx, bc: BoxConstraints, data: T, env: Env) -> bool {
        self.child() is Some ==> self.child()->Some_0.layout_pre(ctx, bc, data, env)
    }

    /// With a child: the child has chosen `size`, which its slot has noted,
    /// and lies at the origin. Without one: `size` is the largest that `bc`
    /// admits, and nothing has changed.
    pub open spec fn layout_ensures(
        &self,
        ctx: LayoutCtx,
        bc: BoxConstraints,
        data: T,
        env: Env,
        next: Self,
        next_ctx: LayoutCtx,
        size: Size,
    ) -> bool {
        &&& self.same_functions(next)
        &&& next.child_id() == self.child_id()
        &&& match self.child() {
            Some(child) => {
                &&& next.child() is Some
                &&& child@.inner.layout_post(
                    ctx,
                    bc,
                    data,
                    env,
                    next.child()->Some_0@.inner,
                    next_ctx,
                    size,
                )
                &&& next.child()->Some_0@.initialized == child@.initialized
                &&& next.child()->Some_0@.origin == Point::spec_origin()
                &&& next.child()->Some_0@.size == size
            },
            None => {
                &&& next.child() is None
                &&& next_ctx == ctx
                &&& size == bc.max
            },
        }
    }

    /// The child, if there is one, can take the pass.
    pub open spec fn paint_requires(&self, ctx: PaintCtx, data: T, env: Env) -> bool {
        self.child() is Some ==> self.child()->Some_0.paint_pre(ctx, data, env)
    }

    /// The child, if there is one, has drawn itself where the layout pass
    /// put it. Nothing else has changed.
    pub open spec fn paint_ensures(&self, ctx: PaintCtx, data: T, env: Env, next: Self, next_ctx: PaintCtx) -> bool {
        &&& self.same_functions(next)
        &&& next.child_id() == self.child_id()
        &&& match self.child() {
            Some(child) => {
                &&& next.child() is Some
                &&& child.paint_post(ctx, data, env, next.child()->Some_0, next_ctx)
            },
            None => {
                &&& next.child() is None
                &&& next_ctx == ctx
            },
        }
    }

    /// Create a new view switcher.
    ///
    /// The `child_picker` closure is called every time the application data
    /// changes. If the value it returns is the same as the one it returned
    /// during the previous data change, nothing happens. If it returns a
    /// different value, then the `child_builder` closure is called with the
    /// new value.
    ///
    /// The `child_builder` closure creates a new child widget based on the
    /// value passed to it. Neither closure is called here.
    pub fn new(child_picker: P, child_builder: B) -> (switcher: Self)
        ensures
            switcher.picker() == child_picker,
            switcher.builder() == child_builder,
            switcher.child() is None,
            switcher.child_id() is None,
            switcher.inv(),
    {
        ViewSwitcher { child_picker, child_builder, active_child: None, active_child_id: None }
    }

    /// The slot of the active child, if there is one.
    pub fn active_child(&self) -> (child: Option<&WidgetPod<T, W>>)
        ensures
            child is Some <==> self.child() is Some,
            child is Some ==> *child->Some_0 == self.child()->Some_0,
    {
        self.active_child.as_ref()
    }

    /// The discriminator that the active child was built for.
    pub fn active_child_id(&self) -> (id: Option<&U>)
        ensures
            id is Some <==> self.child_id() is Some,
            id is Some ==> *id->Some_0 == self.child_id()->Some_0,
    {
        self.active_child_id.as_ref()
    }

    /// Hands the event to the child, if there is one. The picker is not
    /// asked: what the child is depends on the data, not on input.
    pub fn event(&mut self, ctx: &mut EventCtx, event: &Event, data: &mut T, env: &Env)
        requires
            old(self).event_requires(*old(ctx), *event, *old(data), *env),
        ensures
            old(self).event_ensures(
                *old(ctx),
                *event,
                *old(data),
                *env,
                *final(self),
                *final(ctx),
                *final(data),
            ),
            old(self).inv() ==> final(self).inv(),
    {
        if let Some(child) = self.active_child.as_mut() {
            child.event(ctx, event, data, env);
        }
    }

    /// On `WidgetAdded`, builds the child for the discriminator that the
    /// picker answers, and stores both. Then hands the signal to the child,
    /// if there is one, so that a child built here also learns that it was
    /// added.
    pub fn lifecycle(&mut self, ctx: &mut LifeCycleCtx, event: &LifeCycle, data: &T, env: &Env)
        requires
            old(self).lifecycle_requires(*old(ctx), *event, *data, *env),
        ensures
            old(self).lifecycle_ensures(*old(ctx), *event, *data, *env, *final(self), *final(ctx)),
            old(self).inv() ==> final(self).inv(),
            *event == LifeCycle::WidgetAdded ==> final(self).child() is Some && final(self).child_id() is Some,
    {
        if let LifeCycle::WidgetAdded = event {
            assert(self.child_picker == old(self).picker());
            assert(self.child_builder == old(self).builder());
            let child_id = (self.child_picker)(data, env);
            assert(old(self).picks(*data, *env, child_id));
            let pod = WidgetPod::new((self.child_builder)(&child_id, data, env));
            assert(old(self).built_for(child_id, *data, *env, pod));
            self.active_child = Some(pod);
            self.active_child_id = Some(child_id);
        }
        if let Some(child) = self.active_child.as_mut() {
            child.lifecycle(ctx, event, data, env);
        }
    }

    /// Asks the picker. If the discriminator is the same as the stored one,
    /// hands the pass to the child. If not, replaces the child by one built
    /// for the new discriminator, stores the discriminator and tells the host
    /// that the children changed; the new child does not get this pass, since
    /// it has not been set up yet.
    pub fn update(&mut self, ctx: &mut UpdateCtx, old_data: &T, data: &T, env: &Env)
        requires
            old(self).update_requires(*old(ctx), *old_data, *data, *env),
        ensures
            old(self).update_ensures(*old(ctx), *old_data, *data, *env, *final(self), *final(ctx)),
            final(self).inv(),
            final(self).child_id() is Some,
    {
        assert(self.child_picker == old(self).picker());
        assert(self.child_builder == old(self).builder());
        let child_id = (self.child_picker)(data, env);
        assert(old(self).picks(*data, *env, child_id));
        if !child_id.same(self.active_child_id.as_ref().unwrap()) {
            self.active_child = Some(WidgetPod::new((self.child_builder)(&child_id, data, env)));
            self.active_child_id = Some(child_id);
            ctx.children_changed();
        } else if let Some(child) = self.active_child.as_mut() {
            child.update(ctx, old_data, data, env);
        }
        assert(old(self).update_with(child_id, *old(ctx), *old_data, *data, *env, *self, *ctx));
    }

    /// With a child: lets it choose its size under the same constraints,
    /// places it at the origin and answers its size. Without one: answers the
    /// largest size that the constraints admit.
    pub fn layout(&mut self, ctx: &mut LayoutCtx, bc: &BoxConstraints, data: &T, env: &Env) -> (size: Size)
        requires
            old(self).layout_requires(*old(ctx), *bc, *data, *env),
        ensures
            old(self).layout_ensures(*old(ctx), *bc, *data, *env, *final(self), *final(ctx), size),
            old(self).inv() ==> final(self).inv(),
    {
        match self.active_child.as_mut() {
            Some(child) => {
                let size = child.layout(ctx, bc, data, env);
                child.set_origin(Point::origin());
                size
            },
            None => bc.max(),
        }
    }

    /// Lets the child, if there is one, draw itself where the layout pass
    /// put it.
    pub fn paint(&mut self, ctx: &mut PaintCtx, data: &T, env: &Env)
        requires
            old(self).paint_requires(*old(ctx), *data, *env),
        ensures
            old(self).paint_ensures(*old(ctx), *data, *env, *final(self), *final(ctx)),
            old(self).inv() ==> final(self).inv(),
    {
        if let Some(child) = self.active_child.as_mut() {
            child.paint_raw(ctx, data, env);
        }
    }
}

/// The switcher as a member of the tree: each pass needs and leaves behind
/// what the switcher's own pass of that name does.
impl<T, U, W, P, B> Widget<T> for ViewSwitcher<T, U, W, P, B> where
    T: Data,
    U: Data,
    W: Widget<T>,
    P: Fn(&T, &Env) -> U,
    B: Fn(&U, &T, &Env) -> W,
 {
    open spec fn event_pre(&self, ctx: EventCtx, event: Event, data: T, env: Env) -> bool {
        self.event_requires(ctx, event, data, env)
    }

    open spec fn event_post(
        &self,
        ctx: EventCtx,
        event: Event,
        data: T,
        env: Env,
        next: Self,
        next_ctx: EventCtx,
        next_data: T,
    ) -> bool {
        self.event_ensures(ctx, event, data, env, next, next_ctx, next_data)
    }

    open spec fn lifecycle_pre(&self, ctx: LifeCycleCtx, event: LifeCycle, data: T, env: Env) -> bool {
        self.lifecycle_requires(ctx, event, data, env)
    }

    open spec fn lifecycle_post(
        &self,
        ctx: LifeCycleCtx,
        event: LifeCycle,
        data: T,
        env: Env,
        next: Self,
        next_ctx: LifeCycleCtx,
    ) -> bool {
        self.lifecycle_ensures(ctx, event, data, env, next, next_ctx)
    }

    open spec fn update_pre(&self, ctx: UpdateCtx, old_data: T, data: T, env: Env) -> bool {
        self.update_requires(ctx, old_data, data, env)
    }

    open spec fn update_post(
        &self,
        ctx: UpdateCtx,
        old_data: T,
        data: T,
        env: Env,
        next: Self,
        next_ctx: UpdateCtx,
    ) -> bool {
        self.update_ensures(ctx, old_data, data, env, next, next_ctx)
    }

    open spec fn layout_pre(&self, ctx: LayoutCtx, bc: BoxConstraints, data: T, env: Env) -> bool {
        self.layout_requires(ctx, bc, data, env)
    }

    open spec fn layout_post(
        &self,
        ctx: LayoutCtx,
        bc: BoxConstraints,
        data: T,
        env: Env,
        next: Self,
        next_ctx: LayoutCtx,
        size: Size,
    ) -> bool {
        self.layout_ensures(ctx, bc, data, env, next, next_ctx, size)
    }

    open spec fn paint_pre(&self, ctx: PaintCtx, data: T, env: Env) -> bool {
        self.paint_requires(ctx, data, env)
    }

    open spec fn paint_post(&self, ctx: PaintCtx, data: T, env: Env, next: Self, next_ctx: PaintCtx) -> bool {
        self.paint_ensures(ctx, data, env, next, next_ctx)
    }

    fn event(&mut self, ctx: &mut EventCtx, event: &Event, data: &mut T, env: &Env) {
        ViewSwitcher::event(self, ctx, event, data, env)
    }

    fn lifecycle(&mut self, ctx: &mut LifeCycleCtx, event: &LifeCycle, data: &T, env: &Env) {
        ViewSwitcher::lifecycle(self, ctx, event, data, env)
    }

    fn update(&mut self, ctx: &mut UpdateCtx, old_data: &T, data: &T, env: &Env) {
        ViewSwitcher::update(self, ctx, old_data, data, env)
    }

    fn layout(&mut self, ctx: &mut LayoutCtx, bc: &BoxConstraints, data: &T, env: &Env) -> (size: Size) {
        ViewSwitcher::layout(self, ctx, bc, data, env)
    }

    fn paint(&mut self, ctx: &mut PaintCtx, data: &T, env: &Env) {
        ViewSwitcher::paint(self, ctx, data, env)
    }
}

} // verus!
