//! Integer plane geometry: points and rectangles whose coordinates follow the
//! clamping rules of the windowing layer (positions within half the `i32`
//! range, extents between one pixel and half the `i32` range).
use vstd::prelude::*;

verus! {

/// Largest coordinate a point or a rectangle corner may take.
pub const MAX_COORD: i32 = 1073741823;

/// Smallest coordinate a point or a rectangle corner may take.
pub const MIN_COORD: i32 = -1073741824;

/// Largest width or height of a rectangle.
pub const MAX_EXTENT: u32 = 1073741823;

/// A coordinate brought into `[MIN_COORD, MAX_COORD]`.
pub open spec fn clamp_coord(v: int) -> int {
    if v > MAX_COORD as int {
        MAX_COORD as int
    } else if v < MIN_COORD as int {
        MIN_COORD as int
    } else {
        v
    }
}

/// An extent brought into `[1, MAX_EXTENT]`: a rectangle is never empty.
pub open spec fn clamp_extent(v: int) -> int {
    if v <= 0 {
        1
    } else if v > MAX_EXTENT as int {
        MAX_EXTENT as int
    } else {
        v
    }
}

fn clamp_coord_i64(v: i64) -> (r: i32)
    ensures
        r as int == clamp_coord(v as int),
{
    if v > MAX_COORD as i64 {
        MAX_COORD
    } else if v < MIN_COORD as i64 {
        MIN_COORD
    } else {
        v as i32
    }
}

fn clamp_extent_u32(v: u32) -> (r: u32)
    ensures
        r as int == clamp_extent(v as int),
{
    if v == 0 {
        1
    } else if v > MAX_EXTENT {
        MAX_EXTENT
    } else {
        v
    }
}

/// A point of the viewport plane.
#[derive(Clone, Copy, Debug, PartialEq, Eq, Structural)]
pub struct Point {
    pub x: i32,
    pub y: i32,
}

impl Point {
    pub open spec fn at(x: int, y: int) -> Point {
        Point { x: clamp_coord(x) as i32, y: clamp_coord(y) as i32 }
    }

    /// The point `(x, y)`, each coordinate clamped into the coordinate range.
    pub fn new(x: i32, y: i32) -> (p: Point)
        ensures
            p == Point::at(x as int, y as int),
    {
        Point { x: clamp_coord_i64(x as i64), y: clamp_coord_i64(y as i64) }
    }

    /// Componentwise sum, clamped into the coordinate range.
    pub fn plus(self, other: Point) -> (p: Point)
        ensures
            p == Point::at(self.x + other.x, self.y + other.y),
    {
        Point {
            x: clamp_coord_i64(self.x as i64 + other.x as i64),
            y: clamp_coord_i64(self.y as i64 + other.y as i64),
        }
    }

    /// Componentwise difference, clamped into the coordinate range.
    pub fn minus(self, other: Point) -> (p: Point)
        ensures
            p == Point::at(self.x - other.x, self.y - other.y),
    {
        Point {
            x: clamp_coord_i64(self.x as i64 - other.x as i64),
            y: clamp_coord_i64(self.y as i64 - other.y as i64),
        }
    }
}

/// An axis-aligned rectangle with its top-left corner at `(x, y)`.
#[derive(Clone, Copy, Debug, PartialEq, Eq, Structural)]
pub struct Rect {
    pub x: i32,
    pub y: i32,
    pub width: u32,
    pub height: u32,
}

impl Rect {
    pub open spec fn at(x: int, y: int, width: int, height: int) -> Rect {
        Rect {
            x: clamp_coord(x) as i32,
            y: clamp_coord(y) as i32,
            width: clamp_extent(width) as u32,
            height: clamp_extent(height) as u32,
        }
    }

    /// A rectangle with clamped corner and extents; a zero extent becomes one
    /// pixel.
    pub fn new(x: i32, y: i32, width: u32, height: u32) -> (r: Rect)
        ensures
            r == Rect::at(x as int, y as int, width as int, height as int),
    {
        Rect {
            x: clamp_coord_i64(x as i64),
            y: clamp_coord_i64(y as i64),
            width: clamp_extent_u32(width),
            height: clamp_extent_u32(height),
        }
    }
}

/// One copy of a region of a pixel buffer (`src`, in buffer coordinates) to
/// a region of the viewport (`dst`).
#[derive(Clone, Copy, Debug, PartialEq, Eq, Structural)]
pub struct Blit {
    pub src: Rect,
    pub dst: Rect,
}

/// An opaque RGB colour.
#[derive(Clone, Copy, Debug, PartialEq, Eq, Structural)]
pub struct Color {
    pub r: u8,
    pub g: u8,
    pub b: u8,
}

/// A solid fill of a viewport rectangle.
#[derive(Clone, Copy, Debug, PartialEq, Eq, Structural)]
pub struct Fill {
    pub rect: Rect,
    pub color: Color,
}

/// The top-left anchor that centres an object of `size` on `center`.
pub open spec fn centered_anchor(center: Point, size: (u32, u32)) -> Point {
    Point::at(
        center.x - clamp_coord(size.0 as int / 2),
        center.y - clamp_coord(size.1 as int / 2),
    )
}

/// Computes `centered_anchor(center, size)`.
pub fn anchor_for_center(center: Point, size: (u32, u32)) -> (p: Point)
    ensures
        p == centered_anchor(center, size),
{
    let half_w = size.0 / 2;
    let half_h = size.1 / 2;
    let offset = Point::new(
        if half_w > MAX_COORD as u32 { MAX_COORD } else { half_w as i32 },
        if half_h > MAX_COORD as u32 { MAX_COORD } else { half_h as i32 },
    );
    center.minus(offset)
}

} // verus!
