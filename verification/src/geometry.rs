//! Points, sizes, rectangles and insets on the whole-pixel grid.

use vstd::prelude::*;

verus! {

/// A position on the pixel grid.
#[derive(Clone, Copy, Debug, PartialEq, Eq, Structural)]
pub struct Point {
    pub x: i64,
    pub y: i64,
}

/// The natural size of an element, as its own layout pass measured it.
#[derive(Clone, Copy, Debug, PartialEq, Eq, Structural)]
pub struct Size {
    pub width: u32,
    pub height: u32,
}

/// An axis-aligned box: its top-left corner and its extent.
#[derive(Clone, Copy, Debug, PartialEq, Eq, Structural)]
pub struct Rectangle {
    pub x: i64,
    pub y: i64,
    pub width: i64,
    pub height: i64,
}

/// Insets kept free around the contents of a container.
#[derive(Clone, Copy, Debug, PartialEq, Eq, Structural)]
pub struct Padding {
    pub top: u32,
    pub right: u32,
    pub bottom: u32,
    pub left: u32,
}

impl Point {
    pub fn new(x: i64, y: i64) -> (p: Point)
        ensures
            p == (Point { x, y }),
    {
        Point { x, y }
    }
}

impl Size {
    pub fn new(width: u32, height: u32) -> (s: Size)
        ensures
            s == (Size { width, height }),
    {
        Size { width, height }
    }
}

impl Rectangle {
    /// The x coordinate of the left edge.
    pub open spec fn left(self) -> int {
        self.x as int
    }

    /// The x coordinate just past the right edge.
    pub open spec fn right(self) -> int {
        self.x + self.width
    }

    /// The y coordinate of the top edge.
    pub open spec fn top(self) -> int {
        self.y as int
    }

    /// The y coordinate just past the bottom edge.
    pub open spec fn bottom(self) -> int {
        self.y + self.height
    }

    /// A point lies in a rectangle when it is on or after the left and top
    /// edges and strictly before the right and bottom edges.
    pub open spec fn spec_contains(&self, point: Point) -> bool {
        &&& self.left() <= point.x < self.right()
        &&& self.top() <= point.y < self.bottom()
    }

    pub fn new(x: i64, y: i64, width: i64, height: i64) -> (r: Rectangle)
        ensures
            r == (Rectangle { x, y, width, height }),
    {
        Rectangle { x, y, width, height }
    }

    /// The top-left corner.
    pub fn position(&self) -> (p: Point)
        ensures
            p == (Point { x: self.x, y: self.y }),
    {
        Point { x: self.x, y: self.y }
    }

    /// Whether `point` lies inside the rectangle.
    #[verifier::when_used_as_spec(spec_contains)]
    pub fn contains(&self, point: Point) -> (inside: bool)
        ensures
            inside == self.spec_contains(point),
    {
        let dx: i128 = point.x as i128 - self.x as i128;
        let dy: i128 = point.y as i128 - self.y as i128;
        0 <= dx && dx < self.width as i128 && 0 <= dy && dy < self.height as i128
    }
}

impl Padding {
    /// No inset on any side.
    pub open spec fn spec_zero() -> Padding {
        Padding { top: 0, right: 0, bottom: 0, left: 0 }
    }

    /// The same inset on all four sides.
    pub open spec fn spec_uniform(inset: u32) -> Padding {
        Padding { top: inset, right: inset, bottom: inset, left: inset }
    }

    pub fn new(top: u32, right: u32, bottom: u32, left: u32) -> (p: Padding)
        ensures
            p == (Padding { top, right, bottom, left }),
    {
        Padding { top, right, bottom, left }
    }

    #[verifier::when_used_as_spec(spec_zero)]
    pub fn zero() -> (p: Padding)
        ensures
            p == Padding::spec_zero(),
    {
        Padding { top: 0, right: 0, bottom: 0, left: 0 }
    }

    #[verifier::when_used_as_spec(spec_uniform)]
    pub fn uniform(inset: u32) -> (p: Padding)
        ensures
            p == Padding::spec_uniform(inset),
    {
        Padding { top: inset, right: inset, bottom: inset, left: inset }
    }
}

impl From<u32> for Padding {
    fn from(inset: u32) -> (p: Padding) {
        Padding { top: inset, right: inset, bottom: inset, left: inset }
    }
}

impl vstd::std_specs::convert::FromSpecImpl<u32> for Padding {
    open spec fn obeys_from_spec() -> bool {
        true
    }

    open spec fn from_spec(inset: u32) -> Padding {
        Padding::spec_uniform(inset)
    }
}

} // verus!
