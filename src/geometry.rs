use vstd::prelude::*;

verus! {

/// A screen coordinate; may lie off-screen.
#[derive(Clone, Copy, PartialEq, Eq, Structural, Debug)]
pub struct Point {
    pub x: i32,
    pub y: i32,
}

/// A width and a height in pixels.
#[derive(Clone, Copy, PartialEq, Eq, Structural, Debug)]
pub struct Size {
    pub width: u32,
    pub height: u32,
}

/// The direction a fish faces and swims in.
#[derive(Clone, Copy, PartialEq, Eq, Structural, Debug)]
pub enum Dir {
    Left,
    Right,
}

/// What a sprite, a fish or the whole tank shows at one point.
#[derive(Clone, Copy, PartialEq, Eq, Structural, Debug)]
pub enum PointValue {
    /// No bounding box covers the point.
    OutOfRange,
    /// A bounding box covers the point but shows no sprite pixel there.
    Transparent,
    /// A sprite pixel in RGB565.
    Opaque(u16),
}

impl Point {
    pub fn new(x: i32, y: i32) -> (r: Point)
        ensures
            r.x == x,
            r.y == y,
    {
        Point { x, y }
    }
}

impl Size {
    pub fn new(width: u32, height: u32) -> (r: Size)
        ensures
            r.width == width,
            r.height == height,
    {
        Size { width, height }
    }
}

/// Converts a pixel count to a signed coordinate.
pub fn cvt(u: u32) -> (r: i32)
    requires
        u <= i32::MAX,
    ensures
        r == u,
{
    u as i32
}

} // verus!
