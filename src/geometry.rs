//! Axis-aligned bounding boxes and the minimum-penetration overlap test.
use vstd::prelude::*;

use crate::units::{in_span, RATE_LIMIT};

verus! {

/// The face of minimum penetration reported by an overlap test.
#[derive(Clone, Copy, Debug, PartialEq, Eq, Structural)]
pub enum Hit {
    Top,
    Right,
    Bottom,
    Left,
}

impl Hit {
    /// The same contact seen from the other box.
    pub open spec fn mirror(self) -> Hit {
        match self {
            Hit::Top => Hit::Bottom,
            Hit::Bottom => Hit::Top,
            Hit::Left => Hit::Right,
            Hit::Right => Hit::Left,
        }
    }

    pub open spec fn is_vertical(self) -> bool {
        self == Hit::Top || self == Hit::Bottom
    }
}

/// An axis-aligned rectangle in world space: `x`, `y` is the top-left corner.
#[derive(Clone, Copy, Debug, PartialEq, Eq, Structural)]
pub struct BoundingBox {
    pub x: i64,
    pub y: i64,
    pub width: i64,
    pub height: i64,
}

pub open spec fn abs(v: int) -> int {
    if v < 0 {
        -v
    } else {
        v
    }
}

impl BoundingBox {
    /// Positive extents and a corner within the accepted span.
    pub open spec fn wf(self) -> bool {
        &&& in_span(self.x)
        &&& in_span(self.y)
        &&& 0 < self.width <= RATE_LIMIT
        &&& 0 < self.height <= RATE_LIMIT
    }

    /// Twice the horizontal distance from the centre of `other` to the centre of `self`.
    pub open spec fn dx2(self, other: BoundingBox) -> int {
        (2 * self.x + self.width) - (2 * other.x + other.width)
    }

    /// Twice the vertical distance from the centre of `other` to the centre of `self`.
    pub open spec fn dy2(self, other: BoundingBox) -> int {
        (2 * self.y + self.height) - (2 * other.y + other.height)
    }

    /// Twice the horizontal penetration (negative when apart).
    pub open spec fn overlap_x2(self, other: BoundingBox) -> int {
        self.width + other.width - abs(self.dx2(other))
    }

    /// Twice the vertical penetration (negative when apart).
    pub open spec fn overlap_y2(self, other: BoundingBox) -> int {
        self.height + other.height - abs(self.dy2(other))
    }

    /// The boxes touch or overlap on both axes.
    pub open spec fn overlaps(self, other: BoundingBox) -> bool {
        self.overlap_x2(other) >= 0 && self.overlap_y2(other) >= 0
    }

    /// The contact face seen from `self`: horizontal only when the horizontal
    /// penetration is strictly the smaller one, so a tie is vertical.
    pub open spec fn face(self, other: BoundingBox) -> Hit {
        if self.overlap_x2(other) < self.overlap_y2(other) {
            if self.dx2(other) > 0 {
                Hit::Right
            } else {
                Hit::Left
            }
        } else {
            if self.dy2(other) > 0 {
                Hit::Bottom
            } else {
                Hit::Top
            }
        }
    }

    /// Penetration depth along the axis of the reported face, rounded down
    /// to a whole sub-unit.
    pub open spec fn depth(self, other: BoundingBox) -> int {
        if self.overlap_x2(other) < self.overlap_y2(other) {
            self.overlap_x2(other) / 2
        } else {
            self.overlap_y2(other) / 2
        }
    }

    /// Result of the overlap test of `self` against `other`.
    pub open spec fn collision(self, other: BoundingBox) -> Option<(Hit, i64)> {
        if self.overlaps(other) {
            Some((self.face(other), self.depth(other) as i64))
        } else {
            None
        }
    }

    pub fn new(x: i64, y: i64, width: i64, height: i64) -> (r: BoundingBox)
        ensures
            r == (BoundingBox { x, y, width, height }),
    {
        BoundingBox { x, y, width, height }
    }

    /// Tests `self` against `other`. On overlap, returns the face of
    /// minimum penetration seen from `self` and the penetration depth.
    pub fn collides_with(&self, other: &Self) -> (r: Option<(Hit, i64)>)
        requires
            self.wf(),
            other.wf(),
        ensures
            r == self.collision(*other),
    {
        let dx2 = (2 * self.x + self.width) - (2 * other.x + other.width);
        let dy2 = (2 * self.y + self.height) - (2 * other.y + other.height);
        let widths = self.width + other.width;
        let heights = self.height + other.height;
        let adx = if dx2 < 0 {
            -dx2
        } else {
            dx2
        };
        let ady = if dy2 < 0 {
            -dy2
        } else {
            dy2
        };
        if adx <= widths && ady <= heights {
            let overlap_x2 = widths - adx;
            let overlap_y2 = heights - ady;
            if overlap_x2 < overlap_y2 {
                if dx2 > 0 {
                    Some((Hit::Right, overlap_x2 / 2))
                } else {
                    Some((Hit::Left, overlap_x2 / 2))
                }
            } else {
                if dy2 > 0 {
                    Some((Hit::Bottom, overlap_y2 / 2))
                } else {
                    Some((Hit::Top, overlap_y2 / 2))
                }
            }
        } else {
            None
        }
    }
}

/// Whether an overlap is found does not depend on the order of the boxes,
/// and the penetration depth is the same either way.
pub proof fn lemma_collision_symmetric(a: BoundingBox, b: BoundingBox)
    requires
        a.wf(),
        b.wf(),
    ensures
        a.collision(b).is_some() <==> b.collision(a).is_some(),
        a.collision(b).is_some() ==> a.collision(b).unwrap().1 == b.collision(a).unwrap().1,
{
}

/// The face is decided by a non-zero distance between the centres along
/// the axis it lies on.
pub open spec fn face_decided(a: BoundingBox, b: BoundingBox) -> bool {
    if a.overlap_x2(b) < a.overlap_y2(b) {
        a.dx2(b) != 0
    } else {
        a.dy2(b) != 0
    }
}

/// Seen from the other box, the reported face is the geometric mirror
/// (`Left` and `Right`, `Top` and `Bottom` swap), whenever the centres are
/// apart along the axis of that face.
pub proof fn lemma_collision_mirror(a: BoundingBox, b: BoundingBox)
    requires
        a.wf(),
        b.wf(),
        a.overlaps(b),
        face_decided(a, b),
    ensures
        b.collision(a) == Some((a.face(b).mirror(), a.depth(b) as i64)),
{
}

/// Equal horizontal and vertical penetration always gives a vertical face.
pub proof fn lemma_tie_is_vertical(a: BoundingBox, b: BoundingBox)
    requires
        a.wf(),
        b.wf(),
        a.overlaps(b),
        a.overlap_x2(b) == a.overlap_y2(b),
    ensures
        a.collision(b) is Some,
        a.collision(b).unwrap().0.is_vertical(),
{
}

} // verus!
