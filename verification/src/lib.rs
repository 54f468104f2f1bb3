//! A container widget that shows exactly one child at a time. Which child is
//! shown follows from the application data: a picker projects the data to a
//! discriminator, and a builder makes the child for that discriminator
//! whenever it changes.
//!
//! The host drives a widget through five passes (event, lifecycle, update,
//! layout, paint). Every widget describes each pass by two predicates: what
//! the pass needs and what it may leave behind. The switcher's own predicates
//! are written in terms of its child's, so a switcher can itself be a child.

pub mod context;
pub mod data;
pub mod env;
pub mod event;
pub mod geometry;
pub mod laws;
pub mod pod;
pub mod switcher;
pub mod widget;

pub use crate::context::{EventCtx, LayoutCtx, LifeCycleCtx, PaintCtx, Request, UpdateCtx};
pub use crate::data::Data;
pub use crate::env::Env;
pub use crate::event::{Event, LifeCycle};
pub use crate::geometry::{BoxConstraints, Point, Size};
pub use crate::pod::{PodView, WidgetPod};
pub use crate::switcher::ViewSwitcher;
pub use crate::widget::Widget;
