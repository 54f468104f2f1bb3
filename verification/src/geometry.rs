//! Positions, sizes and layout constraints, in whole device units.

use vstd::prelude::*;

verus! {

/// A position relative to the origin of the enclosing widget.
#[derive(Clone, Copy, Debug, PartialEq, Eq, Structural)]
pub struct Point {
    pub x: i64,
    pub y: i64,
}

impl Point {
    /// The local origin of a widget.
    pub open spec fn spec_origin() -> Point {
        Point { x: 0, y: 0 }
    }

    /// The local origin of a widget.
    #[verifier::when_used_as_spec(spec_origin)]
    pub fn origin() -> (p: Point)
        ensures
            p == Point::spec_origin(),
    {
        Point { x: 0, y: 0 }
    }
}

/// The extent of a widget.
#[derive(Clone, Copy, Debug, PartialEq, Eq, Structural)]
pub struct Size {
    pub width: u64,
    pub height: u64,
}

impl Size {
    /// The empty extent.
    pub open spec fn spec_zero() -> Size {
        Size { width: 0, height: 0 }
    }

    /// The empty extent.
    #[verifier::when_used_as_spec(spec_zero)]
    pub fn zero() -> (size: Size)
        ensures
            size == Size::spec_zero(),
    {
        Size { width: 0, height: 0 }
    }
}

/// The smallest and the largest size that a layout pass may answer with.
#[derive(Clone, Copy, Debug, PartialEq, Eq, Structural)]
pub struct BoxConstraints {
    pub min: Size,
    pub max: Size,
}

impl BoxConstraints {
    /// Constraints that admit the sizes from `min` to `max`.
    pub fn new(min: Size, max: Size) -> (bc: BoxConstraints)
        ensures
            bc.min == min,
            bc.max == max,
    {
        BoxConstraints { min, max }
    }

    /// The smallest admissible size.
    pub fn min(&self) -> (size: Size)
        ensures
            size == self.min,
    {
        self.min
    }

    /// The largest admissible size.
    pub fn max(&self) -> (size: Size)
        ensures
            size == self.max,
    {
        self.max
    }
}

} // verus!
