//! Arena layout and axis-aligned boxes.
//!
//! Lengths and coordinates are whole numbers of micro-units: one logical unit
//! of the play field is `UNIT` of them. The arena is centred on the origin,
//! `x` grows to the right and `y` grows upwards.

use vstd::prelude::*;

verus! {

/// Micro-units in one logical unit of length.
pub const UNIT: i64 = 1_000_000;

/// Width of the arena (600 units).
pub const ARENA_WIDTH: i64 = 600_000_000;

/// Height of the arena (400 units).
pub const ARENA_HEIGHT: i64 = 400_000_000;

/// Distance from the centre to the left and right bounds.
pub const ARENA_HALF_WIDTH: i64 = 300_000_000;

/// Distance from the centre to the top and bottom bounds.
pub const ARENA_HALF_HEIGHT: i64 = 200_000_000;

/// No coordinate or half extent that the simulation handles exceeds this
/// magnitude, so sums of a few of them stay far from the limits of `i64`.
pub const POSITION_LIMIT: i64 = 4_000_000_000_000;

/// An axis-aligned box, given by its centre and its half extents.
#[derive(Clone, Copy, Debug, PartialEq, Eq, Structural)]
pub struct Rect {
    pub x: i64,
    pub y: i64,
    pub half_width: i64,
    pub half_height: i64,
}

/// The side of the second box that the first one has run into.
#[derive(Clone, Copy, Debug, PartialEq, Eq, Structural)]
pub enum Collision {
    Left,
    Right,
    Top,
    Bottom,
    /// The boxes overlap and no single side is struck: on each axis the first
    /// box either covers the second, lies within it, or shares an edge
    /// coordinate with it.
    Inside,
}

impl Rect {
    /// Extents are not negative and everything is within `POSITION_LIMIT`.
    pub open spec fn wf(self) -> bool {
        &&& -POSITION_LIMIT <= self.x <= POSITION_LIMIT
        &&& -POSITION_LIMIT <= self.y <= POSITION_LIMIT
        &&& 0 <= self.half_width <= POSITION_LIMIT
        &&& 0 <= self.half_height <= POSITION_LIMIT
    }

    pub open spec fn left(self) -> int {
        self.x - self.half_width
    }

    pub open spec fn right(self) -> int {
        self.x + self.half_width
    }

    pub open spec fn bottom(self) -> int {
        self.y - self.half_height
    }

    pub open spec fn top(self) -> int {
        self.y + self.half_height
    }

    /// The interiors of the two boxes meet. Boxes that only touch along an
    /// edge do not overlap.
    pub open spec fn overlaps(self, other: Rect) -> bool {
        &&& self.left() < other.right()
        &&& self.right() > other.left()
        &&& self.bottom() < other.top()
        &&& self.top() > other.bottom()
    }

    /// `self` sticks out of `other` on the left and ends inside it.
    pub open spec fn strikes_left_of(self, other: Rect) -> bool {
        self.left() < other.left() && self.right() > other.left() && self.right() < other.right()
    }

    /// `self` sticks out of `other` on the right and starts inside it.
    pub open spec fn strikes_right_of(self, other: Rect) -> bool {
        self.left() > other.left() && self.left() < other.right() && self.right() > other.right()
    }

    /// `self` sticks out of `other` below and ends inside it.
    pub open spec fn strikes_bottom_of(self, other: Rect) -> bool {
        self.bottom() < other.bottom() && self.top() > other.bottom() && self.top() < other.top()
    }

    /// `self` sticks out of `other` above and starts inside it.
    pub open spec fn strikes_top_of(self, other: Rect) -> bool {
        self.bottom() > other.bottom() && self.bottom() < other.top() && self.top() > other.top()
    }

    /// How far `self` reaches into `other` along `x`, where it strikes the
    /// left or the right side; `None` where it strikes neither.
    pub open spec fn depth_x(self, other: Rect) -> Option<int> {
        if self.strikes_left_of(other) {
            Some(self.right() - other.left())
        } else if self.strikes_right_of(other) {
            Some(other.right() - self.left())
        } else {
            None
        }
    }

    /// How far `self` reaches into `other` along `y`, where it strikes the
    /// bottom or the top side; `None` where it strikes neither.
    pub open spec fn depth_y(self, other: Rect) -> Option<int> {
        if self.strikes_bottom_of(other) {
            Some(self.top() - other.bottom())
        } else if self.strikes_top_of(other) {
            Some(other.top() - self.bottom())
        } else {
            None
        }
    }

    /// The vertical side counts: `self` strikes the top or the bottom, and
    /// reaches in less deeply there than along `x`, or strikes no side along
    /// `x` at all. Equal depths count for the horizontal side.
    pub open spec fn vertical_side_wins(self, other: Rect) -> bool {
        match (self.depth_x(other), self.depth_y(other)) {
            (_, None) => false,
            (None, Some(_)) => true,
            (Some(dx), Some(dy)) => dy < dx,
        }
    }

    /// The side of `other` that `self` has run into: of the sides struck, the
    /// one with the shallowest penetration.
    pub open spec fn collision_with(self, other: Rect) -> Option<Collision> {
        if !self.overlaps(other) {
            None
        } else if self.vertical_side_wins(other) {
            if self.strikes_bottom_of(other) {
                Some(Collision::Bottom)
            } else {
                Some(Collision::Top)
            }
        } else if self.strikes_left_of(other) {
            Some(Collision::Left)
        } else if self.strikes_right_of(other) {
            Some(Collision::Right)
        } else {
            Some(Collision::Inside)
        }
    }
}

/// Tells whether box `a` has run into box `b`, and into which side of `b`.
pub fn collide(a: Rect, b: Rect) -> (hit: Option<Collision>)
    requires
        a.wf(),
        b.wf(),
    ensures
        hit == a.collision_with(b),
{
    let a_left: i64 = a.x - a.half_width;
    let a_right: i64 = a.x + a.half_width;
    let a_bottom: i64 = a.y - a.half_height;
    let a_top: i64 = a.y + a.half_height;
    let b_left: i64 = b.x - b.half_width;
    let b_right: i64 = b.x + b.half_width;
    let b_bottom: i64 = b.y - b.half_height;
    let b_top: i64 = b.y + b.half_height;

    if !(a_left < b_right && a_right > b_left && a_bottom < b_top && a_top > b_bottom) {
        return None;
    }
    let x_hit: Option<(Collision, i64)> = if a_left < b_left && a_right > b_left && a_right
        < b_right {
        Some((Collision::Left, a_right - b_left))
    } else if a_left > b_left && a_left < b_right && a_right > b_right {
        Some((Collision::Right, b_right - a_left))
    } else {
        None
    };
    let y_hit: Option<(Collision, i64)> = if a_bottom < b_bottom && a_top > b_bottom && a_top
        < b_top {
        Some((Collision::Bottom, a_top - b_bottom))
    } else if a_bottom > b_bottom && a_bottom < b_top && a_top > b_top {
        Some((Collision::Top, b_top - a_bottom))
    } else {
        None
    };
    match (x_hit, y_hit) {
        (None, None) => Some(Collision::Inside),
        (Some((side, _)), None) => Some(side),
        (None, Some((side, _))) => Some(side),
        (Some((x_side, x_depth)), Some((y_side, y_depth))) => {
            if y_depth < x_depth {
                Some(y_side)
            } else {
                Some(x_side)
            }
        },
    }
}

/// Boxes that collide overlap, and boxes that overlap collide.
pub proof fn lemma_collision_iff_overlap(a: Rect, b: Rect)
    ensures
        a.collision_with(b).is_some() <==> a.overlaps(b),
{
}

} // verus!
