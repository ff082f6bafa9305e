//! Axis-aligned rectangle utility.
//!
//! Rectangles are top-left anchored, with both axes growing right/down.
//! The intersection test is strict: rectangles that merely share an edge
//! do not intersect.

use vstd::prelude::*;

verus! {

/// Mathematical model of a rectangle, used by all contracts.
pub ghost struct RectV {
    pub x: int,
    pub y: int,
    pub w: int,
    pub h: int,
}

/// An axis-aligned rectangle: top-left corner plus dimensions.
#[derive(Clone, Copy, PartialEq, Eq, Structural, Debug)]
pub struct Rect {
    pub x: i32,
    pub y: i32,
    pub w: i32,
    pub h: i32,
}

impl View for Rect {
    type V = RectV;

    open spec fn view(&self) -> RectV {
        RectV { x: self.x as int, y: self.y as int, w: self.w as int, h: self.h as int }
    }
}

/// Both dimensions are strictly positive.
pub open spec fn rect_pos(r: RectV) -> bool {
    r.w > 0 && r.h > 0
}

/// The corner sums fit in `i32`, so the edge coordinates are computable.
pub open spec fn rect_sums_fit(r: RectV) -> bool {
    i32::MIN <= r.x + r.w <= i32::MAX && i32::MIN <= r.y + r.h <= i32::MAX
}

/// The closed regions genuinely overlap (positive-area intersection).
pub open spec fn rect_overlaps(a: RectV, b: RectV) -> bool {
    a.x < b.x + b.w && b.x < a.x + a.w && a.y < b.y + b.h && b.y < a.y + a.h
}

/// The overlapping sub-rectangle of two overlapping rectangles.
pub open spec fn rect_inter(a: RectV, b: RectV) -> RectV {
    let x = if a.x >= b.x { a.x } else { b.x };
    let y = if a.y >= b.y { a.y } else { b.y };
    let xe = if a.x + a.w <= b.x + b.w { a.x + a.w } else { b.x + b.w };
    let ye = if a.y + a.h <= b.y + b.h { a.y + a.h } else { b.y + b.h };
    RectV { x, y, w: xe - x, h: ye - y }
}

/// Translation by a delta.
pub open spec fn rect_offset(r: RectV, dx: int, dy: int) -> RectV {
    RectV { x: r.x + dx, y: r.y + dy, w: r.w, h: r.h }
}

impl Rect {
    pub fn new(x: i32, y: i32, w: i32, h: i32) -> (r: Rect)
        ensures
            r@ == (RectV { x: x as int, y: y as int, w: w as int, h: h as int }),
    {
        Rect { x, y, w, h }
    }

    /// Strict overlap test: true only for a positive-area intersection,
    /// never for mere edge touching.
    pub fn has_intersection(&self, other: &Rect) -> (r: bool)
        requires
            rect_pos(self@) && rect_pos(other@),
            rect_sums_fit(self@) && rect_sums_fit(other@),
        ensures
            r == rect_overlaps(self@, other@),
    {
        self.x < other.x + other.w && other.x < self.x + self.w && self.y < other.y + other.h
            && other.y < self.y + self.h
    }

    /// The overlapping sub-rectangle. Only meaningful — and only callable —
    /// when the rectangles genuinely overlap.
    pub fn intersection(&self, other: &Rect) -> (r: Rect)
        requires
            rect_pos(self@) && rect_pos(other@),
            rect_sums_fit(self@) && rect_sums_fit(other@),
            rect_overlaps(self@, other@),
        ensures
            r@ == rect_inter(self@, other@),
            rect_pos(r@),
            r@.w <= self@.w && r@.w <= other@.w,
            r@.h <= self@.h && r@.h <= other@.h,
    {
        let x = if self.x >= other.x { self.x } else { other.x };
        let y = if self.y >= other.y { self.y } else { other.y };
        let xe = if self.x + self.w <= other.x + other.w {
            self.x + self.w
        } else {
            other.x + other.w
        };
        let ye = if self.y + self.h <= other.y + other.h {
            self.y + self.h
        } else {
            other.y + other.h
        };
        Rect { x, y, w: xe - x, h: ye - y }
    }

    /// Pure translation: returns the moved rectangle, leaving `self` alone.
    pub fn offset(self, dx: i32, dy: i32) -> (r: Rect)
        requires
            i32::MIN <= self@.x + dx <= i32::MAX,
            i32::MIN <= self@.y + dy <= i32::MAX,
        ensures
            r@ == rect_offset(self@, dx as int, dy as int),
    {
        Rect { x: self.x + dx, y: self.y + dy, w: self.w, h: self.h }
    }
}

} // verus!
