//! Integer points, sizes, rectangles and colors.
//!
//! Screen coordinates grow rightwards and downwards, so a rectangle's origin
//! is its upper-left corner.

use vstd::prelude::*;

verus! {

/// A point, or a two-dimensional extent, in whole pixels.
#[derive(Clone, Copy, Debug, PartialEq, Eq, Structural)]
pub struct Point {
    pub x: i32,
    pub y: i32,
}

/// The pixel dimensions of a framebuffer or a texture.
#[derive(Clone, Copy, Debug, PartialEq, Eq, Structural)]
pub struct Size {
    pub width: u32,
    pub height: u32,
}

/// A color of four 8-bit channels.
#[derive(Clone, Copy, Debug, PartialEq, Eq, Structural)]
pub struct Color {
    pub r: u8,
    pub g: u8,
    pub b: u8,
    pub a: u8,
}

/// An axis-aligned rectangle, held as its upper-left and lower-right corners.
#[derive(Clone, Copy, Debug, PartialEq, Eq, Structural)]
pub struct Rect {
    pub origin: Point,
    pub lower_right: Point,
}

impl Point {
    pub fn new(x: i32, y: i32) -> (point: Point)
        ensures
            point == (Point { x, y }),
    {
        Point { x, y }
    }

    /// The point whose coordinates are the given integers narrowed to 32
    /// bits. Where both already fit, they are kept as they are.
    pub open spec fn narrowed(x: int, y: int) -> Point {
        Point { x: x as i32, y: y as i32 }
    }
}

impl Size {
    pub fn new(width: u32, height: u32) -> (size: Size)
        ensures
            size == (Size { width, height }),
    {
        Size { width, height }
    }

    /// The extent with the same bit patterns read as signed coordinates.
    pub open spec fn spec_to_point(self) -> Point {
        Point { x: self.width as i32, y: self.height as i32 }
    }

    /// The extent with the same bit patterns read as signed coordinates.
    pub fn to_point(self) -> (point: Point)
        ensures
            point == self.spec_to_point(),
    {
        Point { x: #[verifier::truncate] (self.width as i32), y: #[verifier::truncate] (self.height as i32) }
    }
}

impl Rect {
    /// The rectangle with the given upper-left corner and extent. The
    /// lower-right corner is their sum, narrowed to 32 bits.
    pub open spec fn spec_new(origin: Point, size: Point) -> Rect {
        Rect { origin, lower_right: Point::narrowed(origin.x + size.x, origin.y + size.y) }
    }

    pub open spec fn spec_upper_right(self) -> Point {
        Point { x: self.lower_right.x, y: self.origin.y }
    }

    pub open spec fn spec_lower_left(self) -> Point {
        Point { x: self.origin.x, y: self.lower_right.y }
    }

    /// The horizontal extent: positive when the right edge lies right of the left edge.
    pub open spec fn width(self) -> int {
        self.lower_right.x - self.origin.x
    }

    /// The vertical extent: positive when the lower edge lies below the upper edge.
    pub open spec fn height(self) -> int {
        self.lower_right.y - self.origin.y
    }

    /// The four corners in winding order: origin, upper right, lower right,
    /// lower left.
    pub open spec fn corners(self) -> Seq<Point> {
        seq![self.origin, self.spec_upper_right(), self.lower_right, self.spec_lower_left()]
    }

    /// The rectangle with the given upper-left corner and extent.
    pub fn new(origin: Point, size: Point) -> (rect: Rect)
        ensures
            rect == Rect::spec_new(origin, size),
    {
        let right: i64 = origin.x as i64 + size.x as i64;
        let bottom: i64 = origin.y as i64 + size.y as i64;
        Rect {
            origin,
            lower_right: Point {
                x: #[verifier::truncate] (right as i32),
                y: #[verifier::truncate] (bottom as i32),
            },
        }
    }

    pub fn origin(&self) -> (point: Point)
        ensures
            point == self.origin,
    {
        self.origin
    }

    pub fn upper_right(&self) -> (point: Point)
        ensures
            point == self.spec_upper_right(),
    {
        Point { x: self.lower_right.x, y: self.origin.y }
    }

    pub fn lower_right(&self) -> (point: Point)
        ensures
            point == self.lower_right,
    {
        self.lower_right
    }

    pub fn lower_left(&self) -> (point: Point)
        ensures
            point == self.spec_lower_left(),
    {
        Point { x: self.origin.x, y: self.lower_right.y }
    }

    pub fn min_x(&self) -> (x: i32)
        ensures
            x == self.origin.x,
    {
        self.origin.x
    }

    pub fn min_y(&self) -> (y: i32)
        ensures
            y == self.origin.y,
    {
        self.origin.y
    }
}

/// A rectangle built from a corner and an extent whose sums fit in 32 bits
/// has exactly that extent.
pub proof fn lemma_rect_new_exact(origin: Point, size: Point)
    requires
        i32::MIN <= origin.x + size.x <= i32::MAX,
        i32::MIN <= origin.y + size.y <= i32::MAX,
    ensures
        Rect::spec_new(origin, size).lower_right.x == origin.x + size.x,
        Rect::spec_new(origin, size).lower_right.y == origin.y + size.y,
        Rect::spec_new(origin, size).width() == size.x,
        Rect::spec_new(origin, size).height() == size.y,
{
}

} // verus!
