//! Geometry primitives: 2-D vectors and axis-aligned rectangles with the
//! overlap test used for collision detection.

use vstd::prelude::*;

verus! {

/// A 2-D vector in position units (millionths of a pixel). Also used for
/// velocities, in speed units.
#[derive(Clone, Copy, PartialEq, Eq, Structural, Debug)]
pub struct Vec2i {
    pub x: i64,
    pub y: i64,
}

/// Mathematical value of a [`Vec2i`].
pub ghost struct Vec2V {
    pub x: int,
    pub y: int,
}

impl View for Vec2i {
    type V = Vec2V;

    open spec fn view(&self) -> Vec2V {
        Vec2V { x: self.x as int, y: self.y as int }
    }
}

/// An axis-aligned rectangle; `(x, y)` is its top-left corner.
#[derive(Clone, Copy, PartialEq, Eq, Structural, Debug)]
pub struct Recti {
    pub x: i64,
    pub y: i64,
    pub w: i64,
    pub h: i64,
}

/// Mathematical value of a [`Recti`].
pub ghost struct RectV {
    pub x: int,
    pub y: int,
    pub w: int,
    pub h: int,
}

impl View for Recti {
    type V = RectV;

    open spec fn view(&self) -> RectV {
        RectV { x: self.x as int, y: self.y as int, w: self.w as int, h: self.h as int }
    }
}

/// A rectangle is well formed when its extent is non-negative.
pub open spec fn rect_wf(r: RectV) -> bool {
    r.w >= 0 && r.h >= 0
}

/// Two rectangles overlap iff their projections on both axes intersect as
/// open intervals: rectangles that merely touch along an edge or a corner do
/// not overlap.
pub open spec fn spec_overlaps(a: RectV, b: RectV) -> bool {
    &&& a.x < b.x + b.w
    &&& b.x < a.x + a.w
    &&& a.y < b.y + b.h
    &&& b.y < a.y + a.h
}

impl Recti {
    /// Axis-aligned overlap test; touching edges do not count as an overlap.
    pub fn overlaps(&self, other: &Recti) -> (r: bool)
        requires
            rect_wf(self@),
            rect_wf(other@),
            self@.x + self@.w <= i64::MAX,
            self@.y + self@.h <= i64::MAX,
            other@.x + other@.w <= i64::MAX,
            other@.y + other@.h <= i64::MAX,
        ensures
            r == spec_overlaps(self@, other@),
    {
        self.x < other.x + other.w && other.x < self.x + self.w && self.y < other.y + other.h
            && other.y < self.y + self.h
    }
}

/// Rectangles whose projections on some axis have zero (or negative) overlap
/// never report a collision.
pub proof fn lemma_separated_rects_do_not_overlap(a: RectV, b: RectV)
    requires
        a.x + a.w <= b.x || b.x + b.w <= a.x || a.y + a.h <= b.y || b.y + b.h <= a.y,
    ensures
        !spec_overlaps(a, b),
{
}

/// A rectangle with positive extent always overlaps itself.
pub proof fn lemma_identical_rects_overlap(a: RectV)
    requires
        a.w > 0,
        a.h > 0,
    ensures
        spec_overlaps(a, a),
{
}

} // verus!
