//! Integer points and rectangles with the clamping rules of the
//! rendering backend: coordinates stay within half of the `i32` range and
//! sizes are positive and at most half of `i32::MAX`.

use vstd::prelude::*;

verus! {

/// Largest coordinate a point or rectangle may hold (`i32::MAX / 2`).
pub const POS_MAX: i32 = 1073741823i32;

/// Smallest coordinate a point or rectangle may hold (`i32::MIN / 2`).
pub const POS_MIN: i32 = -1073741824i32;

/// Largest width or height of a rectangle (`i32::MAX as u32 / 2`).
pub const SIZE_MAX: u32 = 1073741823u32;

/// A coordinate brought into `[POS_MIN, POS_MAX]`.
pub open spec fn clamp_position(v: int) -> int {
    if v > POS_MAX {
        POS_MAX as int
    } else if v < POS_MIN {
        POS_MIN as int
    } else {
        v
    }
}

/// A size brought into `[1, SIZE_MAX]`.
pub open spec fn clamp_size(v: int) -> int {
    if v <= 0 {
        1
    } else if v > SIZE_MAX {
        SIZE_MAX as int
    } else {
        v
    }
}

/// Division by two rounding toward zero, as Rust's `/` does on signed integers.
pub open spec fn half_toward_zero(v: int) -> int {
    if v >= 0 {
        v / 2
    } else {
        -((-v) / 2)
    }
}

fn clamp_position_exec(v: i64) -> (r: i32)
    ensures
        r == clamp_position(v as int),
{
    if v > POS_MAX as i64 {
        POS_MAX
    } else if v < POS_MIN as i64 {
        POS_MIN
    } else {
        v as i32
    }
}

fn clamp_size_exec(v: u32) -> (r: u32)
    ensures
        r == clamp_size(v as int),
{
    if v == 0 {
        1
    } else if v > SIZE_MAX {
        SIZE_MAX
    } else {
        v
    }
}

/// A point on the screen or in the game world.
#[derive(Clone, Copy, Debug, PartialEq, Eq, Structural)]
pub struct Point {
    pub x: i32,
    pub y: i32,
}

/// The point with both coordinates clamped.
pub open spec fn point_new(x: int, y: int) -> Point {
    Point { x: clamp_position(x) as i32, y: clamp_position(y) as i32 }
}

/// The point moved by `(dx, dy)`, with the result clamped.
pub open spec fn point_offset(p: Point, dx: int, dy: int) -> Point {
    point_new(p.x + dx, p.y + dy)
}

/// Both coordinates lie in `[POS_MIN, POS_MAX]`, as for every point that
/// `Point::new` and `Point::offset` build.
pub open spec fn point_wf(p: Point) -> bool {
    POS_MIN <= p.x <= POS_MAX && POS_MIN <= p.y <= POS_MAX
}

impl Point {
    /// Builds a point, clamping each coordinate into `[POS_MIN, POS_MAX]`.
    pub fn new(x: i32, y: i32) -> (p: Point)
        ensures
            p == point_new(x as int, y as int),
            point_wf(p),
    {
        Point { x: clamp_position_exec(x as i64), y: clamp_position_exec(y as i64) }
    }

    /// The horizontal coordinate.
    pub fn x(self) -> (r: i32)
        ensures
            r == self.x,
    {
        self.x
    }

    /// The vertical coordinate.
    pub fn y(self) -> (r: i32)
        ensures
            r == self.y,
    {
        self.y
    }

    /// A new point shifted by `(dx, dy)`; a coordinate that would leave
    /// `[POS_MIN, POS_MAX]` stops at its bound.
    pub fn offset(self, dx: i32, dy: i32) -> (p: Point)
        ensures
            p == point_offset(self, dx as int, dy as int),
            point_wf(p),
    {
        Point {
            x: clamp_position_exec(self.x as i64 + dx as i64),
            y: clamp_position_exec(self.y as i64 + dy as i64),
        }
    }

    /// The sum of two points, coordinate by coordinate, clamped.
    pub fn add_point(self, rhs: Point) -> (p: Point)
        ensures
            p == point_offset(self, rhs.x as int, rhs.y as int),
    {
        self.offset(rhs.x, rhs.y)
    }
}

/// An axis-aligned rectangle given by its top-left corner and its size.
#[derive(Clone, Copy, Debug, PartialEq, Eq, Structural)]
pub struct Rect {
    pub x: i32,
    pub y: i32,
    pub w: u32,
    pub h: u32,
}

/// The rectangle with its position and size clamped.
pub open spec fn rect_new(x: int, y: int, w: int, h: int) -> Rect {
    Rect {
        x: clamp_position(x) as i32,
        y: clamp_position(y) as i32,
        w: clamp_size(w) as u32,
        h: clamp_size(h) as u32,
    }
}

/// The rectangle of size `(w, h)` (clamped) centred on `center`.
pub open spec fn rect_from_center(center: Point, w: int, h: int) -> Rect {
    let cw = clamp_size(w);
    let ch = clamp_size(h);
    Rect {
        x: clamp_position(clamp_position(center.x as int) - cw / 2) as i32,
        y: clamp_position(clamp_position(center.y as int) - ch / 2) as i32,
        w: cw as u32,
        h: ch as u32,
    }
}

/// Position and size lie in their clamped ranges, as for every rectangle
/// that `Rect::new` and `Rect::from_center` build.
pub open spec fn rect_wf(r: Rect) -> bool {
    POS_MIN <= r.x <= POS_MAX && POS_MIN <= r.y <= POS_MAX && 1 <= r.w <= SIZE_MAX && 1
        <= r.h <= SIZE_MAX
}

impl Rect {
    /// Builds a rectangle; the position is clamped into `[POS_MIN, POS_MAX]`
    /// and a size of 0 becomes 1, one above `SIZE_MAX` becomes `SIZE_MAX`.
    pub fn new(x: i32, y: i32, width: u32, height: u32) -> (r: Rect)
        ensures
            r == rect_new(x as int, y as int, width as int, height as int),
            rect_wf(r),
    {
        Rect {
            x: clamp_position_exec(x as i64),
            y: clamp_position_exec(y as i64),
            w: clamp_size_exec(width),
            h: clamp_size_exec(height),
        }
    }

    /// Builds a rectangle of the given (clamped) size centred on `center`.
    pub fn from_center(center: Point, width: u32, height: u32) -> (r: Rect)
        ensures
            r == rect_from_center(center, width as int, height as int),
            rect_wf(r),
    {
        let w = clamp_size_exec(width);
        let h = clamp_size_exec(height);
        let cx = clamp_position_exec(center.x as i64);
        let cy = clamp_position_exec(center.y as i64);
        Rect {
            x: clamp_position_exec(cx as i64 - (w / 2) as i64),
            y: clamp_position_exec(cy as i64 - (h / 2) as i64),
            w,
            h,
        }
    }

    /// The horizontal position of the top-left corner.
    pub fn x(&self) -> (r: i32)
        ensures
            r == self.x,
    {
        self.x
    }

    /// The vertical position of the top-left corner.
    pub fn y(&self) -> (r: i32)
        ensures
            r == self.y,
    {
        self.y
    }

    /// The width.
    pub fn width(&self) -> (r: u32)
        ensures
            r == self.w,
    {
        self.w
    }

    /// The height.
    pub fn height(&self) -> (r: u32)
        ensures
            r == self.h,
    {
        self.h
    }

    /// Width and height.
    pub fn size(&self) -> (r: (u32, u32))
        ensures
            r == (self.w, self.h),
    {
        (self.w, self.h)
    }
}

/// Offsetting a point adds to its coordinates, and coordinates that would
/// leave `[POS_MIN, POS_MAX]` stop at the bound they pass; a point built by
/// `new` from in-range coordinates holds them unchanged.
pub proof fn lemma_point_arithmetic(p: Point, dx: int, dy: int)
    ensures
        POS_MIN <= p.x + dx <= POS_MAX ==> point_offset(p, dx, dy).x == p.x + dx,
        POS_MIN <= p.y + dy <= POS_MAX ==> point_offset(p, dx, dy).y == p.y + dy,
        p.x + dx > POS_MAX ==> point_offset(p, dx, dy).x == i32::MAX / 2,
        p.x + dx < POS_MIN ==> point_offset(p, dx, dy).x == i32::MIN / 2,
        p.y + dy > POS_MAX ==> point_offset(p, dx, dy).y == i32::MAX / 2,
        p.y + dy < POS_MIN ==> point_offset(p, dx, dy).y == i32::MIN / 2,
        POS_MIN <= dx <= POS_MAX && POS_MIN <= dy <= POS_MAX ==> point_new(dx, dy) == (Point {
            x: dx as i32,
            y: dy as i32,
        }),
{
}

/// A rectangle keeps in-range positions and sizes as given, turns a size of
/// 0 into 1, and `from_center` puts the middle of the rectangle (rounded
/// down) on the centre point.
pub proof fn lemma_rect_arithmetic(x: int, y: int, w: int, h: int, c: Point)
    ensures
        POS_MIN <= x <= POS_MAX && POS_MIN <= y <= POS_MAX && 1 <= w <= SIZE_MAX && 1 <= h
            <= SIZE_MAX ==> rect_new(x, y, w, h) == (Rect {
            x: x as i32,
            y: y as i32,
            w: w as u32,
            h: h as u32,
        }),
        rect_new(x, y, 0, 0).w == 1 && rect_new(x, y, 0, 0).h == 1,
        w > SIZE_MAX ==> rect_new(x, y, w, h).w == i32::MAX / 2,
        point_wf(c) && 1 <= w <= SIZE_MAX && 1 <= h <= SIZE_MAX && POS_MIN <= c.x - w / 2
            && POS_MIN <= c.y - h / 2 ==> rect_from_center(c, w, h) == (Rect {
            x: (c.x - w / 2) as i32,
            y: (c.y - h / 2) as i32,
            w: w as u32,
            h: h as u32,
        }),
{
}

} // verus!
