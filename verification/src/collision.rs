//! Collision resolution logic for axis-aligned boxes.
//!
//! Coordinates are integers on a screen-style grid: `x` grows to the right and
//! `y` grows downward, so a well-formed rectangle satisfies `left <= right`
//! and `top <= bottom`.

use vstd::prelude::*;

verus! {

/// The direction in which an object colliding with something should bounce.
#[derive(Clone, Copy, Debug, Eq, PartialEq, Hash, Structural)]
pub enum BounceDirection {
    Up,
    Left,
    Down,
    Right,
}

/// An axis-aligned rectangle given by its four edges.
///
/// `y` grows downward, so `top` is the smaller of the two vertical edges.
#[derive(Clone, Copy, Debug, Eq, PartialEq, Structural)]
pub struct Rect {
    pub left: i32,
    pub top: i32,
    pub right: i32,
    pub bottom: i32,
}

/// A direction of travel in the plane. Only the sign of each component is
/// meaningful to the collision checks; the magnitude is ignored.
#[derive(Clone, Copy, Debug, Eq, PartialEq, Structural)]
pub struct Direction2D {
    pub x: i32,
    pub y: i32,
}

impl Rect {
    /// A rectangle is well formed when its edges are ordered on both axes.
    pub open spec fn wf(self) -> bool {
        self.left <= self.right && self.top <= self.bottom
    }

    /// `self` fully contains `other`, edges inclusive.
    pub open spec fn spec_contains_rect(self, other: Rect) -> bool {
        &&& self.left <= other.left
        &&& other.right <= self.right
        &&& self.top <= other.top
        &&& other.bottom <= self.bottom
    }

    /// `self` and `other` overlap on both axes, touching edges included.
    pub open spec fn spec_intersects(self, other: Rect) -> bool {
        &&& self.left <= other.right
        &&& other.left <= self.right
        &&& self.top <= other.bottom
        &&& other.top <= self.bottom
    }

    /// Builds a rectangle directly from its four edges.
    pub fn new(left: i32, top: i32, right: i32, bottom: i32) -> (r: Rect)
        requires
            left <= right,
            top <= bottom,
        ensures
            r == (Rect { left, top, right, bottom }),
            r.wf(),
    {
        Rect { left, top, right, bottom }
    }

    /// Builds the rectangle of the given width and height whose center is at
    /// `(cx, cy)`; for an odd width or height the center is rounded toward
    /// the top-left corner.
    pub fn from_center_size(cx: i32, cy: i32, width: i32, height: i32) -> (r: Rect)
        requires
            0 <= width,
            0 <= height,
            i32::MIN <= cx - width / 2,
            cx - width / 2 + width <= i32::MAX,
            i32::MIN <= cy - height / 2,
            cy - height / 2 + height <= i32::MAX,
        ensures
            r.left == cx - width / 2,
            r.right == r.left + width,
            r.top == cy - height / 2,
            r.bottom == r.top + height,
            r.wf(),
    {
        let left: i32 = cx - width / 2;
        let top: i32 = cy - height / 2;
        Rect { left, top, right: left + width, bottom: top + height }
    }

    /// Whether `self` fully contains `other`, edges inclusive.
    pub fn contains_rect(&self, other: &Rect) -> (r: bool)
        ensures
            r == self.spec_contains_rect(*other),
    {
        self.left <= other.left && other.right <= self.right && self.top <= other.top
            && other.bottom <= self.bottom
    }

    /// Whether `self` and `other` overlap on both axes, touching included.
    pub fn intersects(&self, other: &Rect) -> (r: bool)
        ensures
            r == self.spec_intersects(*other),
    {
        self.left <= other.right && other.left <= self.right && self.top <= other.bottom
            && other.top <= self.bottom
    }
}

/// The direction the moving box must bounce when its box has left `boundary`,
/// or `None` when it is still fully contained.
///
/// When containment fails, the first violated edge in the order left, right,
/// top, bottom decides: the bounce pushes the box back toward the inside of
/// that edge.
pub open spec fn spec_collide_with_boundary(bounding_box: Rect, boundary: Rect) -> Option<
    BounceDirection,
> {
    if boundary.spec_contains_rect(bounding_box) {
        None
    } else if bounding_box.left < boundary.left {
        Some(BounceDirection::Right)
    } else if bounding_box.right > boundary.right {
        Some(BounceDirection::Left)
    } else if bounding_box.top < boundary.top {
        Some(BounceDirection::Down)
    } else {
        Some(BounceDirection::Up)
    }
}

/// Checks a moving object's bounding box against the edges of a containing
/// boundary. If the boundary does not fully contain the bounding box, returns
/// the direction the object must bounce to stay within the boundary.
///
/// With exact integer coordinates a box that is not contained always violates
/// one of the four edge tests, so the bottom-edge check can stand as the
/// final branch: no defensive fallback is needed, and a bounce direction is
/// returned exactly when containment fails.
pub fn collide_with_boundary(bounding_box: &Rect, boundary: &Rect) -> (r: Option<BounceDirection>)
    requires
        bounding_box.wf(),
        boundary.wf(),
    ensures
        r == spec_collide_with_boundary(*bounding_box, *boundary),
        r is Some <==> !boundary.spec_contains_rect(*bounding_box),
{
    if !boundary.contains_rect(bounding_box) {
        if bounding_box.left < boundary.left {
            Some(BounceDirection::Right)
        } else if bounding_box.right > boundary.right {
            Some(BounceDirection::Left)
        } else if bounding_box.top < boundary.top {
            Some(BounceDirection::Down)
        } else {
            Some(BounceDirection::Up)
        }
    } else {
        None
    }
}

/// How far `self_box` has pushed into `other_box` through the face that a
/// bounce in direction `d` would clear. Nonnegative whenever the boxes
/// intersect; the smaller the value, the shallower the penetration.
pub open spec fn penetration(d: BounceDirection, self_box: Rect, other_box: Rect) -> int {
    match d {
        BounceDirection::Down => other_box.bottom - self_box.top,
        BounceDirection::Right => other_box.right - self_box.left,
        BounceDirection::Left => self_box.right - other_box.left,
        BounceDirection::Up => self_box.bottom - other_box.top,
    }
}

/// Whether the direction of travel makes a bounce in direction `d`
/// physically plausible: a box can only be pushed back opposite to its own
/// motion, so each bounce direction is gated by the sign of one component.
pub open spec fn gated(self_direction: Direction2D, d: BounceDirection) -> bool {
    match d {
        BounceDirection::Down => self_direction.y < 0,
        BounceDirection::Right => self_direction.x < 0,
        BounceDirection::Left => self_direction.x > 0,
        BounceDirection::Up => self_direction.y > 0,
    }
}

/// A bounce direction is eligible when its penetration depth is nonnegative
/// and the direction of travel gates it in.
pub open spec fn eligible(
    self_direction: Direction2D,
    d: BounceDirection,
    self_box: Rect,
    other_box: Rect,
) -> bool {
    penetration(d, self_box, other_box) >= 0 && gated(self_direction, d)
}

/// The direction the moving box must bounce off `other_box`, or `None` when
/// the boxes do not intersect or no bounce direction is eligible.
///
/// Among the eligible directions the one with the smallest penetration depth
/// wins; ties go to the earlier direction in the order Down, Right, Left, Up.
pub open spec fn spec_collide_with_rect(
    self_direction: Direction2D,
    self_box: Rect,
    other_box: Rect,
) -> Option<BounceDirection> {
    let ib = penetration(BounceDirection::Down, self_box, other_box);
    let ir = penetration(BounceDirection::Right, self_box, other_box);
    let il = penetration(BounceDirection::Left, self_box, other_box);
    let it = penetration(BounceDirection::Up, self_box, other_box);
    let eb = eligible(self_direction, BounceDirection::Down, self_box, other_box);
    let er = eligible(self_direction, BounceDirection::Right, self_box, other_box);
    let el = eligible(self_direction, BounceDirection::Left, self_box, other_box);
    let et = eligible(self_direction, BounceDirection::Up, self_box, other_box);
    if !self_box.spec_intersects(other_box) {
        None
    } else if eb && (!er || ib <= ir) && (!el || ib <= il) && (!et || ib <= it) {
        Some(BounceDirection::Down)
    } else if er && (!el || ir <= il) && (!et || ir <= it) {
        Some(BounceDirection::Right)
    } else if el && (!et || il <= it) {
        Some(BounceDirection::Left)
    } else if et {
        Some(BounceDirection::Up)
    } else {
        None
    }
}

/// Checks collision between an object moving in `self_direction` with
/// bounding box `self_bounding_box` and some other bounding box. If the two
/// boxes intersect, returns the direction the moving object should bounce:
/// the eligible direction whose face was penetrated the least. Returns `None`
/// when the boxes do not intersect, and also — as a defensive fallback — when
/// they intersect but the direction of travel gates every face out (for
/// instance a zero direction). Intersecting boxes always have all four
/// penetration depths nonnegative, so gating is the only way for every face
/// to be ruled out.
pub fn collide_with_rect(
    self_direction: &Direction2D,
    self_bounding_box: &Rect,
    other_bounding_box: &Rect,
) -> (r: Option<BounceDirection>)
    requires
        self_bounding_box.wf(),
        other_bounding_box.wf(),
    ensures
        r == spec_collide_with_rect(*self_direction, *self_bounding_box, *other_bounding_box),
        r is Some <==> (self_bounding_box.spec_intersects(*other_bounding_box) && (
        gated(*self_direction, BounceDirection::Down) || gated(
            *self_direction,
            BounceDirection::Right,
        ) || gated(*self_direction, BounceDirection::Left) || gated(
            *self_direction,
            BounceDirection::Up,
        ))),
{
    if self_bounding_box.intersects(other_bounding_box) {
        let inside_bottom: i64 = other_bounding_box.bottom as i64 - self_bounding_box.top as i64;
        let inside_right: i64 = other_bounding_box.right as i64 - self_bounding_box.left as i64;
        let inside_left: i64 = self_bounding_box.right as i64 - other_bounding_box.left as i64;
        let inside_top: i64 = self_bounding_box.bottom as i64 - other_bounding_box.top as i64;

        let mut best: Option<BounceDirection> = None;
        let mut min_in: i64 = 0;
        if inside_bottom >= 0 && self_direction.y < 0 {
            best = Some(BounceDirection::Down);
            min_in = inside_bottom;
        }
        if inside_right >= 0 && self_direction.x < 0 && (best.is_none() || inside_right < min_in) {
            best = Some(BounceDirection::Right);
            min_in = inside_right;
        }
        if inside_left >= 0 && self_direction.x > 0 && (best.is_none() || inside_left < min_in) {
            best = Some(BounceDirection::Left);
            min_in = inside_left;
        }
        if inside_top >= 0 && self_direction.y > 0 && (best.is_none() || inside_top < min_in) {
            best = Some(BounceDirection::Up);
            min_in = inside_top;
        }
        best
    } else {
        None
    }
}

/// The amount by which `bounding_box` stands outside `boundary` across the
/// edge that a bounce in direction `d` would mend: positive when the box has
/// crossed that edge, and shrinking as the box moves back along `d`.
pub open spec fn boundary_violation(d: BounceDirection, bounding_box: Rect, boundary: Rect) -> int {
    match d {
        BounceDirection::Right => boundary.left - bounding_box.left,
        BounceDirection::Left => bounding_box.right - boundary.right,
        BounceDirection::Down => boundary.top - bounding_box.top,
        BounceDirection::Up => bounding_box.bottom - boundary.bottom,
    }
}

/// `moved` is `b` displaced by `delta` along direction `d`; `y` grows
/// downward, so Up decreases the vertical edges and Down increases them.
pub open spec fn displaced_by(b: Rect, d: BounceDirection, delta: int, moved: Rect) -> bool {
    match d {
        BounceDirection::Up => moved.left == b.left && moved.right == b.right && moved.top
            == b.top - delta && moved.bottom == b.bottom - delta,
        BounceDirection::Down => moved.left == b.left && moved.right == b.right && moved.top
            == b.top + delta && moved.bottom == b.bottom + delta,
        BounceDirection::Left => moved.left == b.left - delta && moved.right == b.right - delta
            && moved.top == b.top && moved.bottom == b.bottom,
        BounceDirection::Right => moved.left == b.left + delta && moved.right == b.right + delta
            && moved.top == b.top && moved.bottom == b.bottom,
    }
}

/// Containment idempotence: a bounding box fully contained in the boundary
/// never bounces.
pub proof fn lemma_contained_no_bounce(bounding_box: Rect, boundary: Rect)
    requires
        bounding_box.wf(),
        boundary.wf(),
        boundary.spec_contains_rect(bounding_box),
    ensures
        spec_collide_with_boundary(bounding_box, boundary) is None,
{
}

/// Single-axis exit: a box that has left the boundary through the left edge
/// while keeping its other three edges within bounds bounces Right.
pub proof fn lemma_left_exit_bounces_right(bounding_box: Rect, boundary: Rect)
    requires
        bounding_box.wf(),
        boundary.wf(),
        bounding_box.left < boundary.left,
        bounding_box.right <= boundary.right,
        boundary.top <= bounding_box.top,
        bounding_box.bottom <= boundary.bottom,
    ensures
        spec_collide_with_boundary(bounding_box, boundary) == Some(BounceDirection::Right),
{
}

/// Opposite-direction guarantee for the boundary check: a returned bounce
/// direction points at a strictly positive edge violation, and displacing the
/// box by any positive amount along that direction strictly shrinks the
/// violation.
pub proof fn lemma_boundary_bounce_reduces_violation(
    bounding_box: Rect,
    boundary: Rect,
    d: BounceDirection,
    delta: int,
    moved: Rect,
)
    requires
        bounding_box.wf(),
        boundary.wf(),
        spec_collide_with_boundary(bounding_box, boundary) == Some(d),
        0 < delta,
        displaced_by(bounding_box, d, delta, moved),
    ensures
        boundary_violation(d, bounding_box, boundary) > 0,
        boundary_violation(d, moved, boundary) == boundary_violation(d, bounding_box, boundary)
            - delta,
        boundary_violation(d, moved, boundary) < boundary_violation(d, bounding_box, boundary),
{
}

/// Opposite-direction guarantee for the inter-box check: a returned bounce
/// direction has a nonnegative penetration depth, and displacing the moving
/// box by any positive amount along that direction strictly shrinks the
/// depth.
pub proof fn lemma_rect_bounce_reduces_penetration(
    self_direction: Direction2D,
    self_box: Rect,
    other_box: Rect,
    d: BounceDirection,
    delta: int,
    moved: Rect,
)
    requires
        self_box.wf(),
        other_box.wf(),
        spec_collide_with_rect(self_direction, self_box, other_box) == Some(d),
        0 < delta,
        displaced_by(self_box, d, delta, moved),
    ensures
        penetration(d, self_box, other_box) >= 0,
        penetration(d, moved, other_box) == penetration(d, self_box, other_box) - delta,
        penetration(d, moved, other_box) < penetration(d, self_box, other_box),
{
}

/// No false positives: disjoint boxes never produce a bounce, whatever the
/// direction of travel.
pub proof fn lemma_disjoint_no_bounce(
    self_direction: Direction2D,
    self_box: Rect,
    other_box: Rect,
)
    requires
        !self_box.spec_intersects(other_box),
    ensures
        spec_collide_with_rect(self_direction, self_box, other_box) is None,
{
}

/// Minimum-penetration selection: a returned bounce direction is eligible,
/// and its penetration depth is the smallest among all eligible directions.
pub proof fn lemma_minimal_eligible_selected(
    self_direction: Direction2D,
    self_box: Rect,
    other_box: Rect,
    d: BounceDirection,
)
    requires
        spec_collide_with_rect(self_direction, self_box, other_box) == Some(d),
    ensures
        eligible(self_direction, d, self_box, other_box),
        forall|d2: BounceDirection|
            eligible(self_direction, d2, self_box, other_box) ==> penetration(
                d,
                self_box,
                other_box,
            ) <= penetration(d2, self_box, other_box),
{
}

/// Direction gating: a returned bounce direction always opposes the motion
/// that caused it. In particular a box moving down (`self_direction.y > 0`)
/// is never bounced Down, even when the bottom-approach depth is the
/// numerically smallest.
pub proof fn lemma_bounce_gated_by_direction(
    self_direction: Direction2D,
    self_box: Rect,
    other_box: Rect,
    d: BounceDirection,
)
    requires
        spec_collide_with_rect(self_direction, self_box, other_box) == Some(d),
    ensures
        gated(self_direction, d),
        self_direction.y > 0 ==> d != BounceDirection::Down,
        self_direction.y < 0 ==> d != BounceDirection::Up,
        self_direction.x > 0 ==> d != BounceDirection::Right,
        self_direction.x < 0 ==> d != BounceDirection::Left,
{
}

} // verus!
