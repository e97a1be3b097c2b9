//! Signed points, unsigned extents, and axis-aligned rectangles, together with
//! the viewport-to-clip-space clamping used to confine a component's draw
//! calls to its assigned sub-rectangle of the window surface.

use vstd::prelude::*;

verus! {

/// A signed 2D integer coordinate.
#[derive(Copy, Clone, Debug, PartialEq, Eq, Structural)]
pub struct Point {
    pub x: i32,
    pub y: i32,
}

/// An unsigned 2D extent.
#[derive(Copy, Clone, Debug, PartialEq, Eq, Structural)]
pub struct Size {
    pub w: u32,
    pub h: u32,
}

/// An axis-aligned rectangle; `pos` is the top-left corner.
#[derive(Copy, Clone, Debug, PartialEq, Eq, Structural)]
pub struct Rect {
    pub pos: Point,
    pub size: Size,
}

/// Mathematical translation of a point by another; defined only where the
/// sums fit in `i32`, which every caller requires.
pub open spec fn point_add(a: Point, b: Point) -> Point {
    Point { x: (a.x + b.x) as i32, y: (a.y + b.y) as i32 }
}

/// Mathematical difference of two points; defined only where the
/// differences fit in `i32`, which every caller requires.
pub open spec fn point_sub(a: Point, b: Point) -> Point {
    Point { x: (a.x - b.x) as i32, y: (a.y - b.y) as i32 }
}

/// An error for the fallible conversion of a signed coordinate pair into an
/// unsigned extent.
#[derive(Copy, Clone, Debug, PartialEq, Eq, Structural)]
pub enum GeometryError {
    /// A coordinate was negative where an unsigned extent was required.
    NegativeCoordinate,
}

impl Point {
    /// Translates this point by `other`.
    pub fn add(self, other: Point) -> (r: Point)
        requires
            i32::MIN <= self.x + other.x <= i32::MAX,
            i32::MIN <= self.y + other.y <= i32::MAX,
        ensures
            r == point_add(self, other),
            r.x == self.x + other.x,
            r.y == self.y + other.y,
    {
        Point { x: self.x + other.x, y: self.y + other.y }
    }

    /// Translates this point in place by `other`.
    pub fn add_assign(&mut self, other: Point)
        requires
            i32::MIN <= old(self).x + other.x <= i32::MAX,
            i32::MIN <= old(self).y + other.y <= i32::MAX,
        ensures
            *final(self) == point_add(*old(self), other),
    {
        self.x = self.x + other.x;
        self.y = self.y + other.y;
    }

    /// The difference of this point and `rhs`.
    pub fn sub(self, rhs: Point) -> (r: Point)
        requires
            i32::MIN <= self.x - rhs.x <= i32::MAX,
            i32::MIN <= self.y - rhs.y <= i32::MAX,
        ensures
            r == point_sub(self, rhs),
            r.x == self.x - rhs.x,
            r.y == self.y - rhs.y,
    {
        Point { x: self.x - rhs.x, y: self.y - rhs.y }
    }
}

/// Translating a point and then subtracting the translation returns the
/// original point, wherever the intermediate sums fit in `i32`.
pub proof fn lemma_add_sub_round_trip(a: Point, b: Point)
    requires
        i32::MIN <= a.x + b.x <= i32::MAX,
        i32::MIN <= a.y + b.y <= i32::MAX,
    ensures
        point_sub(point_add(a, b), b) == a,
{
}

impl Size {
    /// Converts a signed coordinate pair into an unsigned extent; fails with
    /// a range error when either coordinate is negative.
    pub fn try_from_point(value: Point) -> (r: Result<Size, GeometryError>)
        ensures
            r is Ok <==> value.x >= 0 && value.y >= 0,
            r matches Ok(s) ==> s.w == value.x && s.h == value.y,
            r is Err ==> r == Result::<Size, GeometryError>::Err(GeometryError::NegativeCoordinate),
    {
        if value.x >= 0 && value.y >= 0 {
            Ok(Size { w: value.x as u32, h: value.y as u32 })
        } else {
            Err(GeometryError::NegativeCoordinate)
        }
    }
}

impl Rect {
    /// Containment with inclusive edges: the right/bottom boundary lies one
    /// unit past the rectangle's area.
    pub open spec fn spec_inside(self, p: Point) -> bool {
        &&& self.pos.x <= p.x <= self.pos.x + self.size.w
        &&& self.pos.y <= p.y <= self.pos.y + self.size.h
    }

    pub fn new(x: i32, y: i32, w: u32, h: u32) -> (r: Self)
        ensures
            r.pos.x == x,
            r.pos.y == y,
            r.size.w == w,
            r.size.h == h,
    {
        Self { pos: Point { x, y }, size: Size { w, h } }
    }

    /// Whether `point` lies inside this rectangle, both edges inclusive.
    pub fn inside(&self, point: Point) -> (r: bool)
        ensures
            r == self.spec_inside(point),
    {
        self.pos.x as i64 <= point.x as i64
            && point.x as i64 <= self.pos.x as i64 + self.size.w as i64
            && self.pos.y as i64 <= point.y as i64
            && point.y as i64 <= self.pos.y as i64 + self.size.h as i64
    }

    /// Translates this rectangle's position by `other`; the size is unchanged.
    pub fn add(self, other: Point) -> (r: Self)
        requires
            i32::MIN <= self.pos.x + other.x <= i32::MAX,
            i32::MIN <= self.pos.y + other.y <= i32::MAX,
        ensures
            r.pos == point_add(self.pos, other),
            r.size == self.size,
    {
        Self { pos: self.pos.add(other), size: self.size }
    }

    /// Translates this rectangle's position in place by `other`.
    pub fn add_assign(&mut self, other: Point)
        requires
            i32::MIN <= old(self).pos.x + other.x <= i32::MAX,
            i32::MIN <= old(self).pos.y + other.y <= i32::MAX,
        ensures
            final(self).pos == point_add(old(self).pos, other),
            final(self).size == old(self).size,
    {
        self.pos.add_assign(other);
    }

    /// The on-screen clamp of this viewport rectangle as `(x, y, w, h)`:
    /// the origin is clamped to be non-negative in signed arithmetic before
    /// any unsigned conversion, and the extent shrinks by the negative
    /// overflow of the origin, floored at zero.
    pub fn clip_space(&self) -> (c: (u32, u32, u32, u32))
        ensures
            c.0 == if self.pos.x < 0 { 0int } else { self.pos.x as int },
            c.1 == if self.pos.y < 0 { 0int } else { self.pos.y as int },
            c.2 == if self.pos.x >= 0 {
                self.size.w as int
            } else if self.size.w + self.pos.x >= 0 {
                self.size.w + self.pos.x
            } else {
                0int
            },
            c.3 == if self.pos.y >= 0 {
                self.size.h as int
            } else if self.size.h + self.pos.y >= 0 {
                self.size.h + self.pos.y
            } else {
                0int
            },
    {
        let x: u32 = if self.pos.x < 0 { 0 } else { self.pos.x as u32 };
        let y: u32 = if self.pos.y < 0 { 0 } else { self.pos.y as u32 };
        let w: u32 = if self.pos.x >= 0 {
            self.size.w
        } else {
            let shrink: i64 = -(self.pos.x as i64);
            if shrink >= self.size.w as i64 {
                0
            } else {
                self.size.w - (shrink as u32)
            }
        };
        let h: u32 = if self.pos.y >= 0 {
            self.size.h
        } else {
            let shrink: i64 = -(self.pos.y as i64);
            if shrink >= self.size.h as i64 {
                0
            } else {
                self.size.h - (shrink as u32)
            }
        };
        (x, y, w, h)
    }
}

/// A rectangle contains its own top-left corner and its far corner
/// `pos + (w, h)`, edges inclusive, whenever the far corner's coordinates
/// fit in `i32`.
pub proof fn lemma_inside_edges(r: Rect)
    requires
        r.size.w <= i32::MAX,
        r.size.h <= i32::MAX,
        r.pos.x + r.size.w <= i32::MAX,
        r.pos.y + r.size.h <= i32::MAX,
    ensures
        r.spec_inside(r.pos),
        r.spec_inside(point_add(r.pos, Point { x: r.size.w as i32, y: r.size.h as i32 })),
{
}

/// Abstraction over a render pass that can restrict drawing to a viewport
/// rectangle and to an on-screen clip rectangle; the GPU backend's render
/// pass implements it outside the verified core.
pub trait RectViewportClipSpace {
    fn set_viewport_rect(&mut self, r: Rect);

    fn set_clipspace_rect(&mut self, r: Option<Rect>);
}

} // verus!
