//! The tracer: the stroke that leads from one point to another, drawn with
//! glyphs that show the direction of each step.

use vstd::prelude::*;
use crate::grid::{Cell, CharSet, Point, Segment};
use crate::style::plain;

verus! {

/// Where a coordinate stands after `k` unit steps from `a` towards `b`: it
/// moves by one per step and stays once it has arrived.
pub open spec fn approach(a: u16, b: u16, k: nat) -> u16 {
    if a <= b {
        if a + k <= b {
            (a + k) as u16
        } else {
            b
        }
    } else {
        if a - k >= b {
            (a - k) as u16
        } else {
            b
        }
    }
}

/// Where the tracer stands after `k` steps from `from` towards `to`. Each
/// step moves one row and one column closer, as far as either is still
/// off.
pub open spec fn waypoint(from: Point, to: Point, k: nat) -> Point {
    Point { x: approach(from.x, to.x, k), y: approach(from.y, to.y, k) }
}

/// How far apart two coordinates are.
pub open spec fn gap(a: u16, b: u16) -> nat {
    if a <= b {
        (b - a) as nat
    } else {
        (a - b) as nat
    }
}

/// The number of steps from `from` to `to`: the larger of the two gaps.
pub open spec fn distance(from: Point, to: Point) -> nat {
    if gap(from.x, to.x) >= gap(from.y, to.y) {
        gap(from.x, to.x)
    } else {
        gap(from.y, to.y)
    }
}

/// The stroke from `from` to `to`: one cell for each step, at the place
/// where the step ends, with the glyph of that step's direction. The
/// starting point itself gets no cell.
pub open spec fn path(from: Point, to: Point, glyphs: CharSet) -> Seq<Cell> {
    Seq::new(
        distance(from, to),
        |i: int|
            Cell {
                pos: waypoint(from, to, (i + 1) as nat),
                content: glyphs.glyph(waypoint(from, to, i as nat), waypoint(from, to, (i + 1) as nat)),
            },
    )
}

/// A way of joining two points by a stroke.
pub trait Connect {
    /// The cells of the stroke from `from` to `to`.
    spec fn route(&self, from: Point, to: Point) -> Seq<Cell>;

    /// The stroke from `from` to `to`, in the plain format.
    fn connect(&self, from: Point, to: Point) -> (out: Segment)
        ensures
            out@ == self.route(from, to),
            out.format == plain(),
    ;
}

/// Joins two points by a staircase of unit steps.
#[derive(Debug)]
pub struct Tracer {
    pub char_set: CharSet,
}

impl Tracer {
    pub fn new(char_set: CharSet) -> (out: Self)
        ensures
            out.char_set == char_set,
    {
        Self { char_set }
    }

    /// Walks from `from` to `to`. Each step first moves one row towards
    /// `to`, then one column, and leaves one cell.
    pub fn trace(&self, from: Point, to: Point) -> (out: Segment)
        ensures
            out@ == path(from, to, self.char_set),
            out.format == plain(),
    {
        let mut segment = Segment::new();
        let mut cursor = from;
        let ghost mut k: nat = 0;
        while cursor != to
            invariant
                cursor == waypoint(from, to, k),
                k <= distance(from, to),
                segment@ == path(from, to, self.char_set).take(k as int),
                segment.format == plain(),
            decreases distance(from, to) - k,
        {
            let current_pos = cursor;
            if cursor.y > to.y {
                cursor.move_up();
            } else if cursor.y < to.y {
                cursor.move_down();
            }
            if cursor.x > to.x {
                cursor.move_left();
            } else if cursor.x < to.x {
                cursor.move_right();
            }
            segment.add(Cell::new(cursor, self.char_set.next(current_pos, cursor)));
            proof {
                assert(cursor == waypoint(from, to, k + 1));
                assert(k < distance(from, to));
                assert(segment@ =~= path(from, to, self.char_set).take(k as int + 1));
                k = k + 1;
            }
        }
        proof {
            assert(k == distance(from, to));
            assert(segment@ =~= path(from, to, self.char_set));
        }
        segment
    }
}

impl Tracer {
    /// A copy of `segment` that goes on from its last cell to `point`, or
    /// the report that there is no cell to go on from.
    pub fn extend(&self, segment: &Segment, point: Point) -> (out: Result<Segment, &'static str>)
        ensures
            segment@.len() == 0 <==> out.is_err(),
            out.is_err() ==> out.unwrap_err()@
                == "Grid segment must contain at least one cell for a connection to be made"@,
            out.is_ok() ==> out.unwrap()@ == segment@ + path(
                segment@.last().pos,
                point,
                self.char_set,
            ) && out.unwrap().format == segment.format,
    {
        let n = segment.cells.len();
        if n == 0 {
            return Err("Grid segment must contain at least one cell for a connection to be made");
        }
        let mut extended = segment.clone();
        let tail = self.trace(segment.cells[n - 1].pos, point);
        extended.append(&tail);
        Ok(extended)
    }
}

impl Default for Tracer {
    fn default() -> (out: Self)
        ensures
            out.char_set == crate::grid::default_glyphs(),
    {
        Self { char_set: CharSet::default() }
    }
}

impl Connect for Tracer {
    open spec fn route(&self, from: Point, to: Point) -> Seq<Cell> {
        path(from, to, self.char_set)
    }

    fn connect(&self, from: Point, to: Point) -> (out: Segment) {
        self.trace(from, to)
    }
}

/// A stroke from a point to itself has no cells.
pub proof fn lemma_path_to_itself(p: Point, glyphs: CharSet)
    ensures
        path(p, p, glyphs) == Seq::<Cell>::empty(),
{
    assert(path(p, p, glyphs) =~= Seq::<Cell>::empty());
}

/// A stroke between two different points has cells, and its last cell lies
/// on the end point.
pub proof fn lemma_path_arrives(from: Point, to: Point, glyphs: CharSet)
    requires
        from != to,
    ensures
        path(from, to, glyphs).len() == distance(from, to),
        path(from, to, glyphs).len() > 0,
        path(from, to, glyphs).last().pos == to,
{
}

/// Along a row, every cell of the stroke lies on that row and carries the
/// horizontal glyph of the direction of travel.
pub proof fn lemma_path_along_row(from: Point, to: Point, glyphs: CharSet)
    requires
        from.y == to.y,
        from.x != to.x,
    ensures
        forall|i: int|
            0 <= i < path(from, to, glyphs).len() ==> {
                &&& (#[trigger] path(from, to, glyphs)[i]).pos.y == from.y
                &&& path(from, to, glyphs)[i].content == if to.x < from.x {
                    glyphs.left
                } else {
                    glyphs.right
                }
            },
{
}

/// Along a column, every cell of the stroke lies on that column and
/// carries the vertical glyph of the direction of travel.
pub proof fn lemma_path_along_column(from: Point, to: Point, glyphs: CharSet)
    requires
        from.x == to.x,
        from.y != to.y,
    ensures
        forall|i: int|
            0 <= i < path(from, to, glyphs).len() ==> {
                &&& (#[trigger] path(from, to, glyphs)[i]).pos.x == from.x
                &&& path(from, to, glyphs)[i].content == if to.y < from.y {
                    glyphs.up
                } else {
                    glyphs.down
                }
            },
{
}

/// Where the two gaps are equal, every step is diagonal: each cell carries
/// the backward diagonal where both coordinates fall or both rise, and
/// the forward diagonal where one rises and the other falls.
pub proof fn lemma_path_along_diagonal(from: Point, to: Point, glyphs: CharSet)
    requires
        gap(from.x, to.x) == gap(from.y, to.y),
    ensures
        forall|i: int|
            0 <= i < path(from, to, glyphs).len() ==> (#[trigger] path(from, to, glyphs)[i]).content
                == if (to.x < from.x) == (to.y < from.y) {
                glyphs.diagonal_back
            } else {
                glyphs.diagonal_forward
            },
{
}

/// The way back has as many cells as the way there.
pub proof fn lemma_path_length_symmetric(from: Point, to: Point, glyphs: CharSet)
    ensures
        path(from, to, glyphs).len() == path(to, from, glyphs).len(),
{
}

/// A stroke is its first step followed by the stroke from where that step
/// ends.
pub proof fn lemma_path_unfold(from: Point, to: Point, glyphs: CharSet)
    requires
        from != to,
    ensures
        path(from, to, glyphs) == seq![
            Cell {
                pos: waypoint(from, to, 1),
                content: glyphs.glyph(from, waypoint(from, to, 1)),
            },
        ] + path(waypoint(from, to, 1), to, glyphs),
{
    let next = waypoint(from, to, 1);
    let whole = path(from, to, glyphs);
    let rest = path(next, to, glyphs);
    assert(distance(next, to) + 1 == distance(from, to));
    assert forall|k: nat| waypoint(next, to, k) == #[trigger] waypoint(from, to, k + 1) by {}
    assert(waypoint(from, to, 0) == from);
    let joined = seq![Cell { pos: next, content: glyphs.glyph(from, next) }] + rest;
    assert(whole.len() == joined.len());
    assert forall|i: int| 0 <= i < whole.len() implies whole[i] == joined[i] by {
        if i > 0 {
            assert(joined[i] == rest[i - 1]);
            assert(waypoint(next, to, (i - 1) as nat) == waypoint(from, to, ((i - 1) as nat) + 1));
            assert(waypoint(next, to, i as nat) == waypoint(from, to, (i as nat) + 1));
        }
    }
    assert(whole =~= joined);
}

} // verus!
