//! Directional adjacency between window rectangles.
//!
//! A window is given as `(x, y, width, height)` with the origin at the top left
//! of the screen. Layouts may have gaps and overlaps; nothing assumes a tiling.
use vstd::prelude::*;

verus! {

/// A cardinal direction on the screen.
#[derive(Clone, Copy, Debug, PartialEq, Eq, Structural)]
pub enum Dir {
    Left,
    Right,
    Up,
    Down,
}

/// A screen rectangle with unbounded integer coordinates: the model of a
/// window's `(x, y, width, height)`.
pub struct Rect {
    pub x: int,
    pub y: int,
    pub width: int,
    pub height: int,
}

impl Rect {
    /// The first column to the right of the rectangle.
    pub open spec fn right(self) -> int {
        self.x + self.width
    }

    /// The first row below the rectangle.
    pub open spec fn bottom(self) -> int {
        self.y + self.height
    }

    /// The rectangle reflected about the vertical line through `axis / 2`:
    /// left and right edges change places, rows stay.
    pub open spec fn mirror_x(self, axis: int) -> Rect {
        Rect { x: axis - self.right(), y: self.y, width: self.width, height: self.height }
    }

    /// The rectangle reflected about the horizontal line through `axis / 2`.
    pub open spec fn mirror_y(self, axis: int) -> Rect {
        Rect { x: self.x, y: axis - self.bottom(), width: self.width, height: self.height }
    }
}

/// The rectangle that a window geometry stands for.
pub open spec fn rect_of(g: (i64, i64, i64, i64)) -> Rect {
    Rect { x: g.0 as int, y: g.1 as int, width: g.2 as int, height: g.3 as int }
}

/// The rectangles of a list of window geometries, in the same order.
pub open spec fn rects_of(geoms: Seq<(i64, i64, i64, i64)>) -> Seq<Rect> {
    geoms.map_values(|g: (i64, i64, i64, i64)| rect_of(g))
}

/// Whether the half-open ranges `[start1, end1)` and `[start2, end2)` overlap.
pub open spec fn spec_ranges_overlap(start1: int, end1: int, start2: int, end2: int) -> bool {
    start1 < end2 && start2 < end1
}

/// Whether `other` overlaps `cur` along the axis perpendicular to `dir`:
/// in rows for `Left` and `Right`, in columns for `Up` and `Down`.
pub open spec fn perpendicular_overlap(dir: Dir, cur: Rect, other: Rect) -> bool {
    match dir {
        Dir::Left | Dir::Right => spec_ranges_overlap(cur.y, cur.bottom(), other.y, other.bottom()),
        Dir::Up | Dir::Down => spec_ranges_overlap(cur.x, cur.right(), other.x, other.right()),
    }
}

/// Whether `other` lies strictly in direction `dir` of `cur`, judged by the
/// edge that leads in that direction.
pub open spec fn lies_toward(dir: Dir, cur: Rect, other: Rect) -> bool {
    match dir {
        Dir::Right => other.x > cur.x,
        Dir::Left => other.right() < cur.right(),
        Dir::Down => other.y > cur.y,
        Dir::Up => other.bottom() < cur.bottom(),
    }
}

/// The signed gap between `cur` and `other` along `dir`. It is negative where
/// the two overlap along that axis.
pub open spec fn distance(dir: Dir, cur: Rect, other: Rect) -> int {
    match dir {
        Dir::Right => other.x - cur.right(),
        Dir::Left => cur.x - other.right(),
        Dir::Down => other.y - cur.bottom(),
        Dir::Up => cur.y - other.bottom(),
    }
}

/// Whether `other` is a neighbour of `cur` in direction `dir`.
pub open spec fn is_neighbour(dir: Dir, cur: Rect, other: Rect) -> bool {
    lies_toward(dir, cur, other) && perpendicular_overlap(dir, cur, other)
}

/// Whether window `i` is a candidate for a move in direction `dir` from window
/// `current`.
pub open spec fn is_candidate(dir: Dir, current: int, rects: Seq<Rect>, i: int) -> bool {
    &&& 0 <= current < rects.len()
    &&& 0 <= i < rects.len()
    &&& i != current
    &&& is_neighbour(dir, rects[current], rects[i])
}

/// Whether candidate `i` comes before candidate `j`: it is nearer, or as near
/// and not later in the list.
pub open spec fn precedes(dir: Dir, current: int, rects: Seq<Rect>, i: int, j: int) -> bool {
    let di = distance(dir, rects[current], rects[i]);
    let dj = distance(dir, rects[current], rects[j]);
    di < dj || (di == dj && i <= j)
}

/// Whether window `i` is the one a move in direction `dir` from window
/// `current` goes to: the candidate of least distance, the first of them in the
/// list where several are as near.
pub open spec fn is_nearest(dir: Dir, current: int, rects: Seq<Rect>, i: int) -> bool {
    &&& is_candidate(dir, current, rects, i)
    &&& forall|j: int| #[trigger]
        is_candidate(dir, current, rects, j) ==> precedes(dir, current, rects, i, j)
}

/// How much of the axis perpendicular to `dir` the two rectangles have in
/// common: the length of the intersection of their extents, or a number that
/// is not positive where the extents do not meet.
pub open spec fn shared_extent(dir: Dir, cur: Rect, other: Rect) -> int {
    match dir {
        Dir::Left | Dir::Right => vstd::math::min(cur.bottom(), other.bottom()) - vstd::math::max(
            cur.y,
            other.y,
        ),
        Dir::Up | Dir::Down => vstd::math::min(cur.right(), other.right()) - vstd::math::max(
            cur.x,
            other.x,
        ),
    }
}

/// Whether one rectangle ends, along the axis perpendicular to `dir`, at or
/// before the line where the other begins.
pub open spec fn extents_apart(dir: Dir, cur: Rect, other: Rect) -> bool {
    match dir {
        Dir::Left | Dir::Right => cur.bottom() <= other.y || other.bottom() <= cur.y,
        Dir::Up | Dir::Down => cur.right() <= other.x || other.right() <= cur.x,
    }
}

/// Every rectangle of a layout reflected about a vertical line.
pub open spec fn mirror_x_all(rects: Seq<Rect>, axis: int) -> Seq<Rect> {
    rects.map_values(|r: Rect| r.mirror_x(axis))
}

/// Every rectangle of a layout reflected about a horizontal line.
pub open spec fn mirror_y_all(rects: Seq<Rect>, axis: int) -> Seq<Rect> {
    rects.map_values(|r: Rect| r.mirror_y(axis))
}

/// Returns true if two ranges `[start1, end1)` and `[start2, end2)` overlap.
pub fn ranges_overlap(start1: i128, end1: i128, start2: i128, end2: i128) -> (r: bool)
    ensures
        r == spec_ranges_overlap(start1 as int, end1 as int, start2 as int, end2 as int),
{
    start1 < end2 && start2 < end1
}

/// The distance from `cur` to `other` along `dir`, where `other` is a
/// neighbour of `cur` in that direction. Edges are computed in 128 bits, so
/// no geometry is out of range.
pub fn neighbour_distance(dir: Dir, cur: (i64, i64, i64, i64), other: (i64, i64, i64, i64)) -> (r:
    Option<i128>)
    ensures
        r is Some <==> is_neighbour(dir, rect_of(cur), rect_of(other)),
        r is Some ==> r->0 == distance(dir, rect_of(cur), rect_of(other)),
{
    let left: i128 = other.0 as i128;
    let top: i128 = other.1 as i128;
    let right: i128 = left + other.2 as i128;
    let bottom: i128 = top + other.3 as i128;
    let cur_left: i128 = cur.0 as i128;
    let cur_top: i128 = cur.1 as i128;
    let cur_right: i128 = cur_left + cur.2 as i128;
    let cur_bottom: i128 = cur_top + cur.3 as i128;
    match dir {
        Dir::Right => {
            if left > cur_left && ranges_overlap(cur_top, cur_bottom, top, bottom) {
                Some(left - cur_right)
            } else {
                None
            }
        },
        Dir::Left => {
            if right < cur_right && ranges_overlap(cur_top, cur_bottom, top, bottom) {
                Some(cur_left - right)
            } else {
                None
            }
        },
        Dir::Down => {
            if top > cur_top && ranges_overlap(cur_left, cur_right, left, right) {
                Some(top - cur_bottom)
            } else {
                None
            }
        },
        Dir::Up => {
            if bottom < cur_bottom && ranges_overlap(cur_left, cur_right, left, right) {
                Some(cur_top - bottom)
            } else {
                None
            }
        },
    }
}

/// Find the next window in the given direction. Directions are judged by the
/// leading edge of each window and by overlap along the other axis. If there
/// is no window in the given direction, or `current` is no index into
/// `geoms`, return `None`.
///
/// `current` is the index of the current window in `geoms`; `geoms` holds the
/// geometry of each window as `(x, y, width, height)`, with `x` and `y` the
/// coordinates of its top-left corner.
pub fn find_dir(dir: Dir, current: usize, geoms: &[(i64, i64, i64, i64)]) -> (r: Option<usize>)
    ensures
        match r {
            Some(i) => is_nearest(dir, current as int, rects_of(geoms@), i as int),
            None => forall|j: int| !is_candidate(dir, current as int, rects_of(geoms@), j),
        },
        current >= geoms.len() ==> r is None,
        r matches Some(i) ==> i < geoms.len() && i != current && perpendicular_overlap(
            dir,
            rect_of(geoms@[current as int]),
            rect_of(geoms@[i as int]),
        ),
{
    if current >= geoms.len() {
        return None;
    }
    let cur = geoms[current];
    let ghost rects = rects_of(geoms@);
    let mut best: Option<(usize, i128)> = None;
    let mut i: usize = 0;
    while i < geoms.len()
        invariant
            i <= geoms.len(),
            current < geoms.len(),
            cur == geoms@[current as int],
            rects == rects_of(geoms@),
            match best {
                Some((b, d)) => {
                    &&& b < i
                    &&& is_candidate(dir, current as int, rects, b as int)
                    &&& d == distance(dir, rects[current as int], rects[b as int])
                    &&& forall|j: int|
                        0 <= j < i && #[trigger] is_candidate(dir, current as int, rects, j)
                            ==> precedes(dir, current as int, rects, b as int, j)
                },
                None => forall|j: int|
                    0 <= j < i ==> !#[trigger] is_candidate(dir, current as int, rects, j),
            },
        decreases geoms.len() - i,
    {
        if i != current {
            match neighbour_distance(dir, cur, geoms[i]) {
                Some(d) => {
                    let closer = match best {
                        Some((_, least)) => d < least,
                        None => true,
                    };
                    if closer {
                        best = Some((i, d));
                    }
                },
                None => {},
            }
        }
        i += 1;
    }
    match best {
        Some((b, _)) => Some(b),
        None => None,
    }
}

/// A move has at most one destination: two windows that both satisfy
/// `is_nearest` for the same move are the same window.
pub proof fn lemma_nearest_is_unique(dir: Dir, current: int, rects: Seq<Rect>, i: int, j: int)
    requires
        is_nearest(dir, current, rects, i),
        is_nearest(dir, current, rects, j),
    ensures
        i == j,
{
    assert(precedes(dir, current, rects, i, j));
    assert(precedes(dir, current, rects, j, i));
}

/// Among the candidates of a move the destination has the least signed
/// distance, and no candidate before it in the list is as near.
pub proof fn lemma_nearest_is_least_and_first(
    dir: Dir,
    current: int,
    rects: Seq<Rect>,
    i: int,
    j: int,
)
    requires
        is_nearest(dir, current, rects, i),
        is_candidate(dir, current, rects, j),
    ensures
        distance(dir, rects[current], rects[i]) <= distance(dir, rects[current], rects[j]),
        distance(dir, rects[current], rects[i]) == distance(dir, rects[current], rects[j]) ==> i
            <= j,
{
    assert(precedes(dir, current, rects, i, j));
}

/// A window whose extent along the perpendicular axis does not overlap that
/// of the current window is never the destination of a move.
pub proof fn lemma_no_overlap_is_never_nearest(dir: Dir, current: int, rects: Seq<Rect>, i: int)
    requires
        0 <= current < rects.len(),
        0 <= i < rects.len(),
        !perpendicular_overlap(dir, rects[current], rects[i]),
    ensures
        !is_candidate(dir, current, rects, i),
        !is_nearest(dir, current, rects, i),
{
}

/// Two rectangles that have one unit or more of the perpendicular axis in
/// common overlap there; with the leading edge on the right side that makes
/// the other a neighbour.
pub proof fn lemma_shared_unit_overlaps(dir: Dir, cur: Rect, other: Rect)
    requires
        shared_extent(dir, cur, other) >= 1,
    ensures
        perpendicular_overlap(dir, cur, other),
        lies_toward(dir, cur, other) ==> is_neighbour(dir, cur, other),
{
}

/// Two rectangles that only touch along the perpendicular axis, one ending
/// where the other begins or before, do not overlap there, and neither is
/// a neighbour of the other.
pub proof fn lemma_touching_is_no_overlap(dir: Dir, cur: Rect, other: Rect)
    requires
        extents_apart(dir, cur, other),
    ensures
        !perpendicular_overlap(dir, cur, other),
        !is_neighbour(dir, cur, other),
        shared_extent(dir, cur, other) <= 0,
{
}

/// For rectangles of positive width and height, to overlap along the
/// perpendicular axis is to have one unit or more of it in common.
pub proof fn lemma_overlap_is_shared_unit(dir: Dir, cur: Rect, other: Rect)
    requires
        cur.width > 0 && cur.height > 0,
        other.width > 0 && other.height > 0,
    ensures
        perpendicular_overlap(dir, cur, other) <==> shared_extent(dir, cur, other) >= 1,
{
}

/// Two settings of a move, each a direction and a layout of the same length,
/// that agree window by window on who is a neighbour of the current window and
/// at what distance, have the same destination.
proof fn lemma_nearest_transfers(
    d1: Dir,
    r1: Seq<Rect>,
    d2: Dir,
    r2: Seq<Rect>,
    current: int,
    i: int,
)
    requires
        r1.len() == r2.len(),
        forall|j: int|
            0 <= current < r1.len() && 0 <= j < r1.len() ==> (is_neighbour(
                d1,
                r1[current],
                #[trigger] r1[j],
            ) <==> is_neighbour(d2, r2[current], r2[j])),
        forall|j: int|
            0 <= current < r1.len() && 0 <= j < r1.len() ==> distance(
                d1,
                r1[current],
                #[trigger] r1[j],
            ) == distance(d2, r2[current], r2[j]),
    ensures
        is_nearest(d1, current, r1, i) ==> is_nearest(d2, current, r2, i),
{
    if is_nearest(d1, current, r1, i) {
        assert(is_neighbour(d1, r1[current], r1[i]));
        assert(is_candidate(d2, current, r2, i));
        assert forall|j: int| #[trigger]
            is_candidate(d2, current, r2, j) implies precedes(d2, current, r2, i, j) by {
            assert(is_neighbour(d1, r1[current], r1[j]));
            assert(is_candidate(d1, current, r1, j));
            assert(precedes(d1, current, r1, i, j));
        }
    }
}

/// Reflecting a layout about a vertical line turns right into left: a window
/// is the destination of a move to the right exactly if, in the reflected
/// layout, it is the destination of the move to the left from the same
/// window, and the other way round.
pub proof fn lemma_mirror_x_swaps_left_and_right(
    current: int,
    rects: Seq<Rect>,
    axis: int,
    i: int,
)
    ensures
        is_nearest(Dir::Right, current, rects, i) <==> is_nearest(
            Dir::Left,
            current,
            mirror_x_all(rects, axis),
            i,
        ),
        is_nearest(Dir::Left, current, rects, i) <==> is_nearest(
            Dir::Right,
            current,
            mirror_x_all(rects, axis),
            i,
        ),
{
    let m = mirror_x_all(rects, axis);
    lemma_nearest_transfers(Dir::Right, rects, Dir::Left, m, current, i);
    lemma_nearest_transfers(Dir::Left, m, Dir::Right, rects, current, i);
    lemma_nearest_transfers(Dir::Left, rects, Dir::Right, m, current, i);
    lemma_nearest_transfers(Dir::Right, m, Dir::Left, rects, current, i);
}

/// Reflecting a layout about a horizontal line turns down into up, in the
/// same way.
pub proof fn lemma_mirror_y_swaps_up_and_down(current: int, rects: Seq<Rect>, axis: int, i: int)
    ensures
        is_nearest(Dir::Down, current, rects, i) <==> is_nearest(
            Dir::Up,
            current,
            mirror_y_all(rects, axis),
            i,
        ),
        is_nearest(Dir::Up, current, rects, i) <==> is_nearest(
            Dir::Down,
            current,
            mirror_y_all(rects, axis),
            i,
        ),
{
    let m = mirror_y_all(rects, axis);
    lemma_nearest_transfers(Dir::Down, rects, Dir::Up, m, current, i);
    lemma_nearest_transfers(Dir::Up, m, Dir::Down, rects, current, i);
    lemma_nearest_transfers(Dir::Up, rects, Dir::Down, m, current, i);
    lemma_nearest_transfers(Dir::Down, m, Dir::Up, rects, current, i);
}

} // verus!
