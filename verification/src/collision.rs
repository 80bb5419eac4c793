//! Axis-aligned boxes and the face on which one box meets another.

use vstd::prelude::*;
use crate::config::COORD_LIMIT;

verus! {

/// A point of the plane or the width and height of a box, in sub-pixels.
#[derive(Clone, Copy, Debug, PartialEq, Eq, Structural)]
pub struct Vec2 {
    pub x: i64,
    pub y: i64,
}

/// `v` lies between `-COORD_LIMIT` and `COORD_LIMIT`.
pub open spec fn small(v: i64) -> bool {
    -COORD_LIMIT <= v <= COORD_LIMIT
}

/// Tells whether `v` lies between `-COORD_LIMIT` and `COORD_LIMIT`.
pub fn is_small(v: i64) -> (ok: bool)
    ensures
        ok == small(v),
{
    -COORD_LIMIT <= v && v <= COORD_LIMIT
}

impl Vec2 {
    /// Both components are small.
    pub open spec fn bounded(self) -> bool {
        small(self.x) && small(self.y)
    }

    pub fn is_bounded(&self) -> (ok: bool)
        ensures
            ok == self.bounded(),
    {
        is_small(self.x) && is_small(self.y)
    }

    pub fn new(x: i64, y: i64) -> (v: Vec2)
        ensures
            v.x == x,
            v.y == y,
    {
        Vec2 { x, y }
    }
}

/// The face of the second box that the first box has run into.
#[derive(Clone, Copy, Debug, PartialEq, Eq, Structural)]
pub enum Collision {
    Left,
    Right,
    Top,
    Bottom,
    Inside,
}

/// Twice the lower edge of an interval given by its centre and its length.
pub open spec fn lower2(centre: int, length: int) -> int {
    2 * centre - length
}

/// Twice the upper edge of an interval given by its centre and its length.
pub open spec fn upper2(centre: int, length: int) -> int {
    2 * centre + length
}

/// The two open intervals have a point in common.
pub open spec fn spans_meet(a_centre: int, a_length: int, b_centre: int, b_length: int) -> bool {
    lower2(a_centre, a_length) < upper2(b_centre, b_length)
        && upper2(a_centre, a_length) > lower2(b_centre, b_length)
}

/// The two boxes overlap in a region of positive area.
pub open spec fn boxes_overlap(a_pos: Vec2, a_size: Vec2, b_pos: Vec2, b_size: Vec2) -> bool {
    spans_meet(a_pos.x as int, a_size.x as int, b_pos.x as int, b_size.x as int)
        && spans_meet(a_pos.y as int, a_size.y as int, b_pos.y as int, b_size.y as int)
}

/// Interval `a` sticks out below interval `b` and ends inside it.
pub open spec fn enters_from_below(
    a_centre: int,
    a_length: int,
    b_centre: int,
    b_length: int,
) -> bool {
    lower2(a_centre, a_length) < lower2(b_centre, b_length)
        && lower2(b_centre, b_length) < upper2(a_centre, a_length)
        && upper2(a_centre, a_length) < upper2(b_centre, b_length)
}

/// Interval `a` sticks out above interval `b` and starts inside it.
pub open spec fn enters_from_above(
    a_centre: int,
    a_length: int,
    b_centre: int,
    b_length: int,
) -> bool {
    lower2(b_centre, b_length) < lower2(a_centre, a_length)
        && lower2(a_centre, a_length) < upper2(b_centre, b_length)
        && upper2(b_centre, b_length) < upper2(a_centre, a_length)
}

/// Twice the depth by which interval `a` reaches into interval `b` across
/// one of `b`'s ends, or `None` where `a` crosses neither end alone.
pub open spec fn depth2(a_centre: int, a_length: int, b_centre: int, b_length: int) -> Option<int> {
    if enters_from_below(a_centre, a_length, b_centre, b_length) {
        Some(upper2(a_centre, a_length) - lower2(b_centre, b_length))
    } else if enters_from_above(a_centre, a_length, b_centre, b_length) {
        Some(upper2(b_centre, b_length) - lower2(a_centre, a_length))
    } else {
        None
    }
}

/// The face of `b` met along the horizontal axis, if any.
pub open spec fn side_x(a_pos: Vec2, a_size: Vec2, b_pos: Vec2, b_size: Vec2) -> Collision {
    if enters_from_below(a_pos.x as int, a_size.x as int, b_pos.x as int, b_size.x as int) {
        Collision::Left
    } else if enters_from_above(a_pos.x as int, a_size.x as int, b_pos.x as int, b_size.x as int) {
        Collision::Right
    } else {
        Collision::Inside
    }
}

/// The face of `b` met along the vertical axis, if any.
pub open spec fn side_y(a_pos: Vec2, a_size: Vec2, b_pos: Vec2, b_size: Vec2) -> Collision {
    if enters_from_below(a_pos.y as int, a_size.y as int, b_pos.y as int, b_size.y as int) {
        Collision::Bottom
    } else if enters_from_above(a_pos.y as int, a_size.y as int, b_pos.y as int, b_size.y as int) {
        Collision::Top
    } else {
        Collision::Inside
    }
}

/// The vertical face wins over the horizontal one: it is crossed, and the
/// horizontal one is either not crossed or crossed strictly deeper.
pub open spec fn vertical_wins(a_pos: Vec2, a_size: Vec2, b_pos: Vec2, b_size: Vec2) -> bool {
    let dx = depth2(a_pos.x as int, a_size.x as int, b_pos.x as int, b_size.x as int);
    let dy = depth2(a_pos.y as int, a_size.y as int, b_pos.y as int, b_size.y as int);
    match (dx, dy) {
        (_, None) => false,
        (None, Some(_)) => true,
        (Some(x), Some(y)) => y < x,
    }
}

/// What `collide` returns: `None` for boxes that do not overlap, otherwise
/// the face of `b` with the shallower penetration, the horizontal face on a
/// tie, and `Inside` where no face is crossed.
pub open spec fn collision_of(a_pos: Vec2, a_size: Vec2, b_pos: Vec2, b_size: Vec2) -> Option<
    Collision,
> {
    if !boxes_overlap(a_pos, a_size, b_pos, b_size) {
        None
    } else if vertical_wins(a_pos, a_size, b_pos, b_size) {
        Some(side_y(a_pos, a_size, b_pos, b_size))
    } else {
        Some(side_x(a_pos, a_size, b_pos, b_size))
    }
}

/// Tests two boxes, each given by its centre and its width and height, and
/// names the face of `b` that `a` has run into.
pub fn collide(a_pos: Vec2, a_size: Vec2, b_pos: Vec2, b_size: Vec2) -> (hit: Option<Collision>)
    ensures
        hit == collision_of(a_pos, a_size, b_pos, b_size),
{
    let a_min_x: i128 = 2 * (a_pos.x as i128) - (a_size.x as i128);
    let a_max_x: i128 = 2 * (a_pos.x as i128) + (a_size.x as i128);
    let a_min_y: i128 = 2 * (a_pos.y as i128) - (a_size.y as i128);
    let a_max_y: i128 = 2 * (a_pos.y as i128) + (a_size.y as i128);
    let b_min_x: i128 = 2 * (b_pos.x as i128) - (b_size.x as i128);
    let b_max_x: i128 = 2 * (b_pos.x as i128) + (b_size.x as i128);
    let b_min_y: i128 = 2 * (b_pos.y as i128) - (b_size.y as i128);
    let b_max_y: i128 = 2 * (b_pos.y as i128) + (b_size.y as i128);

    if !(a_min_x < b_max_x && a_max_x > b_min_x && a_min_y < b_max_y && a_max_y > b_min_y) {
        return None;
    }
    let mut x_side = Collision::Inside;
    let mut x_depth: Option<i128> = None;
    if a_min_x < b_min_x && a_max_x > b_min_x && a_max_x < b_max_x {
        x_side = Collision::Left;
        x_depth = Some(a_max_x - b_min_x);
    } else if a_min_x > b_min_x && a_min_x < b_max_x && a_max_x > b_max_x {
        x_side = Collision::Right;
        x_depth = Some(b_max_x - a_min_x);
    }
    let mut y_side = Collision::Inside;
    let mut y_depth: Option<i128> = None;
    if a_min_y < b_min_y && a_max_y > b_min_y && a_max_y < b_max_y {
        y_side = Collision::Bottom;
        y_depth = Some(a_max_y - b_min_y);
    } else if a_min_y > b_min_y && a_min_y < b_max_y && a_max_y > b_max_y {
        y_side = Collision::Top;
        y_depth = Some(b_max_y - a_min_y);
    }
    let vertical = match (x_depth, y_depth) {
        (_, None) => false,
        (None, Some(_)) => true,
        (Some(dx), Some(dy)) => dy < dx,
    };
    if vertical {
        Some(y_side)
    } else {
        Some(x_side)
    }
}

/// An axis-aligned box, given by its centre and its width and height.
#[derive(Clone, Copy, Debug, PartialEq, Eq, Structural)]
pub struct Aabb {
    pub position: Vec2,
    pub extent: Vec2,
}

impl Aabb {
    /// The two boxes overlap in a region of positive area.
    pub open spec fn touches(self, other: Aabb) -> bool {
        boxes_overlap(self.position, self.extent, other.position, other.extent)
    }

    /// The face of `other` that this box has run into, if they overlap.
    pub open spec fn spec_side_of(self, other: Aabb) -> Option<Collision> {
        collision_of(self.position, self.extent, other.position, other.extent)
    }

    /// Names the face of `other` that this box has run into.
    #[verifier::when_used_as_spec(spec_side_of)]
    pub fn side_of(self, other: Aabb) -> (hit: Option<Collision>)
        ensures
            hit == self.spec_side_of(other),
            hit.is_some() == self.touches(other),
    {
        collide(self.position, self.extent, other.position, other.extent)
    }
}

/// Whether two boxes collide does not depend on which is asked first;
/// only the face that is named does.
pub proof fn law_touches_symmetric(a: Aabb, b: Aabb)
    ensures
        a.touches(b) == b.touches(a),
        a.side_of(b).is_some() == b.side_of(a).is_some(),
        a.side_of(b).is_some() == a.touches(b),
{
}

/// Something on the screen that takes up room.
pub trait Solid {
    /// The box that this thing fills.
    spec fn spec_bounds(&self) -> Aabb;

    fn bounds(&self) -> (b: Aabb)
        ensures
            b == self.spec_bounds(),
    ;
}

/// Index of the first of `items` whose box overlaps `target`, if any does.
pub open spec fn first_touching<T: Solid>(items: Seq<T>, target: Aabb) -> Option<int>
    decreases items.len(),
{
    if items.len() == 0 {
        None
    } else {
        match first_touching(items.drop_last(), target) {
            Some(i) => Some(i),
            None => if items.last().spec_bounds().touches(target) {
                Some(items.len() - 1)
            } else {
                None
            },
        }
    }
}

/// Some of `items` has a box that overlaps `target`.
pub open spec fn any_touching<T: Solid>(items: Seq<T>, target: Aabb) -> bool {
    first_touching(items, target) is Some
}

/// `first_touching` names an item that overlaps the target and comes
/// before every other that does; it names none only if none overlaps.
pub proof fn lemma_first_touching<T: Solid>(items: Seq<T>, target: Aabb)
    ensures
        match first_touching(items, target) {
            Some(i) => 0 <= i < items.len() && items[i].spec_bounds().touches(target)
                && forall|j: int|
                0 <= j < i ==> !(#[trigger] items[j]).spec_bounds().touches(target),
            None => forall|j: int|
                0 <= j < items.len() ==> !(#[trigger] items[j]).spec_bounds().touches(target),
        },
    decreases items.len(),
{
    if items.len() > 0 {
        let front = items.drop_last();
        lemma_first_touching(front, target);
        match first_touching(front, target) {
            Some(i) => {
                assert(items[i] == front[i]);
                assert forall|j: int| 0 <= j < i implies !(#[trigger] items[j]).spec_bounds().touches(
                    target,
                ) by {
                    assert(items[j] == front[j]);
                }
            },
            None => {
                assert forall|j: int| 0 <= j < front.len() implies !(
                #[trigger] items[j]).spec_bounds().touches(target) by {
                    assert(items[j] == front[j]);
                }
            },
        }
    }
}

/// An item found among the first `n` is the one found among them all.
pub proof fn lemma_first_touching_prefix<T: Solid>(items: Seq<T>, target: Aabb, n: int)
    requires
        0 <= n <= items.len(),
        first_touching(items.take(n), target) is Some,
    ensures
        first_touching(items, target) == first_touching(items.take(n), target),
    decreases items.len() - n,
{
    if n < items.len() {
        assert(items.take(n + 1).drop_last() =~= items.take(n));
        lemma_first_touching_prefix(items, target, n + 1);
    } else {
        assert(items.take(n) =~= items);
    }
}

/// `any_touching` holds exactly if an item overlaps the target.
pub proof fn law_any_touching<T: Solid>(items: Seq<T>, target: Aabb)
    ensures
        any_touching(items, target) <==> exists|j: int|
            0 <= j < items.len() && (#[trigger] items[j]).spec_bounds().touches(target),
{
    lemma_first_touching(items, target);
    match first_touching(items, target) {
        Some(i) => {
            assert(items[i].spec_bounds().touches(target));
        },
        None => {},
    }
}

/// Finds the first of `items` whose box overlaps `target`.
pub fn find_touching<T: Solid>(items: &Vec<T>, target: Aabb) -> (found: Option<usize>)
    ensures
        match found {
            Some(i) => first_touching(items@, target) == Some(i as int) && i < items.len(),
            None => first_touching(items@, target) is None,
        },
{
    let mut i: usize = 0;
    while i < items.len()
        invariant
            i <= items.len(),
            first_touching(items@.take(i as int), target) is None,
        decreases items.len() - i,
    {
        assert(items@.take(i + 1).drop_last() =~= items@.take(i as int));
        if items[i].bounds().side_of(target).is_some() {
            proof {
                lemma_first_touching_prefix(items@, target, i + 1);
            }
            return Some(i);
        }
        i = i + 1;
    }
    proof {
        assert(items@.take(items.len() as int) =~= items@);
    }
    None
}

/// Tells whether any of `items` has a box that overlaps `target`.
pub fn touches_any<T: Solid>(items: &Vec<T>, target: Aabb) -> (hit: bool)
    ensures
        hit == any_touching(items@, target),
{
    find_touching(items, target).is_some()
}

} // verus!
