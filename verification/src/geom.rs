//! Plain geometry for layout space: points, sizes, rectangles and colors.
//!
//! Coordinates are integer layout units. The windowing layer decides how
//! many layout units make a pixel; nothing in the scene logic depends on
//! that choice.

use vstd::prelude::*;

verus! {

/// A point in layout space.
#[derive(Clone, Copy, Debug, PartialEq, Eq, Structural)]
pub struct Point {
    pub x: i64,
    pub y: i64,
}

/// A size in layout space. Zero-area sizes are allowed: a degenerate
/// viewport still yields a well-formed scene.
#[derive(Clone, Copy, Debug, PartialEq, Eq, Structural)]
pub struct Size {
    pub w: i64,
    pub h: i64,
}

/// An axis-aligned rectangle: an origin point plus a size.
#[derive(Clone, Copy, Debug, PartialEq, Eq, Structural)]
pub struct Rect {
    pub origin: Point,
    pub size: Size,
}

/// An RGBA color with 8-bit channels.
#[derive(Clone, Copy, Debug, PartialEq, Eq, Structural)]
pub struct Color {
    pub r: u8,
    pub g: u8,
    pub b: u8,
    pub a: u8,
}

impl Point {
    pub fn new(x: i64, y: i64) -> (r: Point)
        ensures
            r == (Point { x, y }),
    {
        Point { x, y }
    }
}

impl Size {
    pub fn new(w: i64, h: i64) -> (r: Size)
        ensures
            r == (Size { w, h }),
    {
        Size { w, h }
    }
}

impl Rect {
    /// A rectangle from its four components.
    pub fn new(x: i64, y: i64, w: i64, h: i64) -> (r: Rect)
        ensures
            r == rect(x, y, w, h),
    {
        Rect { origin: Point { x, y }, size: Size { w, h } }
    }
}

/// The rectangle with origin `(x, y)` and size `(w, h)`.
pub open spec fn rect(x: i64, y: i64, w: i64, h: i64) -> Rect {
    Rect { origin: Point { x, y }, size: Size { w, h } }
}

impl Color {
    pub fn new(r: u8, g: u8, b: u8, a: u8) -> (c: Color)
        ensures
            c == (Color { r, g, b, a }),
    {
        Color { r, g, b, a }
    }
}

} // verus!
