//! What the host delivers in the event pass and in the lifecycle pass.

use vstd::prelude::*;
use crate::geometry::{Point, Size};

verus! {

/// A transient input.
#[derive(Clone, Copy, Debug, PartialEq, Eq, Structural)]
pub enum Event {
    MouseDown(Point),
    MouseUp(Point),
    MouseMove(Point),
    KeyDown(u32),
    KeyUp(u32),
    Timer(u64),
}

/// A change in a widget's standing in the tree.
#[derive(Clone, Copy, Debug, PartialEq, Eq, Structural)]
pub enum LifeCycle {
    /// The widget has become part of the live tree. It is the first signal
    /// that a widget gets, and the only one that carries the duty to set
    /// itself up from the data.
    WidgetAdded,
    /// The host is looking for widgets that have not yet been told that
    /// they were added, as it does after a widget has said that its children
    /// changed. A slot whose occupant is new hands the occupant `WidgetAdded`
    /// in its place; every other widget hands it on to its children.
    RouteWidgetAdded,
    /// The widget's size has changed.
    Size(Size),
    /// The widget was enabled or disabled.
    DisabledChanged(bool),
    /// The pointer has entered or left the widget.
    HotChanged(bool),
    /// The widget has gained or lost focus.
    FocusChanged(bool),
}

} // verus!
