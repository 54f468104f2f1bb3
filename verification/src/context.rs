//! The per-pass contexts. Each one collects, in order, what the widgets of a
//! pass ask of the host.

use vstd::prelude::*;

verus! {

/// Something a widget asks of the host during a pass.
#[derive(Clone, Copy, Debug, PartialEq, Eq, Structural)]
pub enum Request {
    /// The widget's set of children has changed: the host has to set up the
    /// new children before it delivers anything else to them.
    ChildrenChanged,
    /// The widget wants a layout pass.
    Layout,
    /// The widget wants a paint pass.
    Paint,
}

/// The context of an event pass.
pub struct EventCtx {
    pub requests: Vec<Request>,
}

/// The context of a lifecycle pass.
pub struct LifeCycleCtx {
    pub requests: Vec<Request>,
}

/// The context of an update pass.
pub struct UpdateCtx {
    pub requests: Vec<Request>,
}

/// The context of a layout pass.
pub struct LayoutCtx {
    pub requests: Vec<Request>,
}

/// The context of a paint pass.
pub struct PaintCtx {
    pub requests: Vec<Request>,
}

impl View for UpdateCtx {
    type V = Seq<Request>;

    open spec fn view(&self) -> Seq<Request> {
        self.requests@
    }
}

impl UpdateCtx {
    /// A context in which nothing has been asked yet.
    pub fn new() -> (ctx: UpdateCtx)
        ensures
            ctx@ == Seq::<Request>::empty(),
    {
        UpdateCtx { requests: Vec::new() }
    }

    /// Tells the host that the calling widget's set of children has changed.
    pub fn children_changed(&mut self)
        ensures
            final(self)@ == old(self)@.push(Request::ChildrenChanged),
    {
        self.requests.push(Request::ChildrenChanged);
    }
}

} // verus!
