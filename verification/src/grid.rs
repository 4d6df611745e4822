//! Grid primitives: points, cells, segments and glyph sets.

use vstd::prelude::*;
use vstd::string::StringSliceAdditionalSpecFns;
use crate::ansi::{goto, push_goto};
use crate::style::{plain, Format};

verus! {

/// A coordinate on the terminal grid, counted from one.
#[derive(Debug, Copy, Clone, PartialEq, Eq, Hash, Structural)]
pub struct Point {
    pub x: u16,
    pub y: u16,
}

impl Point {
    pub fn new(x: u16, y: u16) -> (out: Self)
        ensures
            out == (Point { x, y }),
    {
        Self { x, y }
    }

    pub fn x(self) -> (out: u16)
        ensures
            out == self.x,
    {
        self.x
    }

    pub fn y(self) -> (out: u16)
        ensures
            out == self.y,
    {
        self.y
    }

    /// Relocates the point.
    pub fn move_to(&mut self, x: u16, y: u16)
        ensures
            *final(self) == (Point { x, y }),
    {
        self.x = x;
        self.y = y;
    }

    /// Steps one row towards the top of the screen. Stepping off the
    /// coordinate range is excluded.
    pub fn move_up(&mut self)
        requires
            old(self).y > 0,
        ensures
            *final(self) == (Point { x: old(self).x, y: (old(self).y - 1) as u16 }),
    {
        self.y = self.y - 1;
    }

    /// Steps one row towards the bottom of the screen.
    pub fn move_down(&mut self)
        requires
            old(self).y < u16::MAX,
        ensures
            *final(self) == (Point { x: old(self).x, y: (old(self).y + 1) as u16 }),
    {
        self.y = self.y + 1;
    }

    /// Steps one column towards the left edge of the screen.
    pub fn move_left(&mut self)
        requires
            old(self).x > 0,
        ensures
            *final(self) == (Point { x: (old(self).x - 1) as u16, y: old(self).y }),
    {
        self.x = self.x - 1;
    }

    /// Steps one column towards the right edge of the screen.
    pub fn move_right(&mut self)
        requires
            old(self).x < u16::MAX,
        ensures
            *final(self) == (Point { x: (old(self).x + 1) as u16, y: old(self).y }),
    {
        self.x = self.x + 1;
    }

    /// The point one row above.
    pub fn up(&self) -> (out: Self)
        requires
            self.y > 0,
        ensures
            out == (Point { x: self.x, y: (self.y - 1) as u16 }),
    {
        Self { x: self.x, y: self.y - 1 }
    }

    /// The point one row below.
    pub fn down(&self) -> (out: Self)
        requires
            self.y < u16::MAX,
        ensures
            out == (Point { x: self.x, y: (self.y + 1) as u16 }),
    {
        Self { x: self.x, y: self.y + 1 }
    }

    /// The point one column to the left.
    pub fn left(&self) -> (out: Self)
        requires
            self.x > 0,
        ensures
            out == (Point { x: (self.x - 1) as u16, y: self.y }),
    {
        Self { x: self.x - 1, y: self.y }
    }

    /// The point one column to the right.
    pub fn right(&self) -> (out: Self)
        requires
            self.x < u16::MAX,
        ensures
            out == (Point { x: (self.x + 1) as u16, y: self.y }),
    {
        Self { x: self.x + 1, y: self.y }
    }
}

impl Default for Point {
    /// The top left corner of the screen.
    fn default() -> (out: Self)
        ensures
            out == (Point { x: 1, y: 1 }),
    {
        Self { x: 1, y: 1 }
    }
}

impl From<(u16, u16)> for Point {
    fn from(tuple: (u16, u16)) -> (out: Self) {
        Self { x: tuple.0, y: tuple.1 }
    }
}

impl vstd::std_specs::convert::FromSpecImpl<(u16, u16)> for Point {
    open spec fn obeys_from_spec() -> bool {
        true
    }

    open spec fn from_spec(tuple: (u16, u16)) -> Self {
        Point { x: tuple.0, y: tuple.1 }
    }
}

/// One drawn character at its position.
#[derive(Debug, Copy, Clone, PartialEq, Eq, Structural)]
pub struct Cell {
    pub pos: Point,
    pub content: char,
}

/// The cell at the same position that shows nothing.
pub open spec fn blank(cell: Cell) -> Cell {
    Cell { pos: cell.pos, content: ' ' }
}

/// The text that draws `cell`: the move to its position, then its glyph.
pub open spec fn cell_text(cell: Cell) -> Seq<char> {
    goto(cell.pos.x, cell.pos.y).push(cell.content)
}

/// The text that draws `cells` one after another.
pub open spec fn cells_text(cells: Seq<Cell>) -> Seq<char>
    decreases cells.len(),
{
    if cells.len() == 0 {
        Seq::empty()
    } else {
        cells_text(cells.drop_last()) + cell_text(cells.last())
    }
}

/// `cells` with every glyph replaced by a space.
pub open spec fn blanked(cells: Seq<Cell>) -> Seq<Cell> {
    Seq::new(cells.len(), |i: int| blank(cells[i]))
}

impl Cell {
    pub fn new(pos: Point, content: char) -> (out: Self)
        ensures
            out == (Cell { pos, content }),
    {
        Self { pos, content }
    }

    pub fn pos(&self) -> (out: &Point)
        ensures
            *out == self.pos,
    {
        &self.pos
    }

    pub fn content(self) -> (out: char)
        ensures
            out == self.content,
    {
        self.content
    }

    /// Appends the text that draws this cell.
    pub fn render_into(&self, text: &mut String)
        ensures
            final(text)@ == old(text)@ + cell_text(*self),
    {
        push_goto(text, self.pos.x, self.pos.y);
        text.push(self.content);
        assert(text@ =~= old(text)@ + cell_text(*self));
    }

    /// The text that draws this cell.
    pub fn render(&self) -> (out: String)
        ensures
            out@ == cell_text(*self),
    {
        let mut text = String::new();
        self.render_into(&mut text);
        assert(text@ =~= cell_text(*self));
        text
    }
}

impl Default for Cell {
    fn default() -> (out: Self)
        ensures
            out == (Cell { pos: Point { x: 1, y: 1 }, content: '\0' }),
    {
        Cell { pos: Point { x: 1, y: 1 }, content: '\0' }
    }
}

/// Something on the screen that can be wiped out cell by cell.
pub trait Erase {
    /// The cells that this value puts on the screen.
    spec fn cells(&self) -> Seq<Cell>;

    /// Blanks every cell and returns the text that overwrites each of them
    /// with a space at its position.
    fn erase(&mut self) -> (out: String)
        ensures
            final(self).cells() == blanked(old(self).cells()),
            out@ == cells_text(blanked(old(self).cells())),
    ;
}

impl Erase for Cell {
    open spec fn cells(&self) -> Seq<Cell> {
        seq![*self]
    }

    fn erase(&mut self) -> (out: String)
        ensures
            *final(self) == blank(*old(self)),
    {
        self.content = ' ';
        let out = self.render();
        proof {
            assert(final(self).cells() =~= blanked(old(self).cells()));
            lemma_cells_text_push(Seq::empty(), blank(*old(self)));
            assert(Seq::<Cell>::empty().push(blank(*old(self))) =~= blanked(old(self).cells()));
            assert(Seq::<char>::empty() + cell_text(blank(*old(self))) =~= cell_text(
                blank(*old(self)),
            ));
        }
        out
    }
}

/// Drawing one more cell appends its text.
pub proof fn lemma_cells_text_push(cells: Seq<Cell>, cell: Cell)
    ensures
        cells_text(cells.push(cell)) == cells_text(cells) + cell_text(cell),
{
    assert(cells.push(cell).drop_last() =~= cells);
}

/// Drawing two runs of cells one after the other draws their concatenation.
pub proof fn lemma_cells_text_concat(a: Seq<Cell>, b: Seq<Cell>)
    ensures
        cells_text(a + b) == cells_text(a) + cells_text(b),
    decreases b.len(),
{
    if b.len() == 0 {
        assert(a + b =~= a);
        assert(cells_text(a) + cells_text(b) =~= cells_text(a));
    } else {
        lemma_cells_text_concat(a, b.drop_last());
        assert((a + b).drop_last() =~= a + b.drop_last());
        assert((a + b).last() == b.last());
        assert(cells_text(a) + (cells_text(b.drop_last()) + cell_text(b.last())) =~= (cells_text(a)
            + cells_text(b.drop_last())) + cell_text(b.last()));
    }
}

/// An ordered run of cells that forms one stroke or one text label,
/// displayed in one format.
#[derive(Debug)]
pub struct Segment {
    pub cells: Vec<Cell>,
    pub format: Format,
}

impl View for Segment {
    type V = Seq<Cell>;

    open spec fn view(&self) -> Seq<Cell> {
        self.cells@
    }
}

/// The cells of a text label that starts at `start` and runs to the right,
/// one cell for each byte.
pub open spec fn label(start: Point, bytes: Seq<u8>) -> Seq<Cell> {
    Seq::new(
        bytes.len(),
        |i: int| Cell { pos: Point { x: (start.x + i) as u16, y: start.y }, content: bytes[i] as char },
    )
}

/// The text that draws a segment: its format, its cells, then the return
/// to the plain format.
pub open spec fn segment_text(cells: Seq<Cell>, format: Format) -> Seq<char> {
    format.text() + cells_text(cells) + plain().text()
}

impl Segment {
    /// An empty segment in the plain format.
    pub fn new() -> (out: Self)
        ensures
            out@ == Seq::<Cell>::empty(),
            out.format == plain(),
    {
        Self { cells: Vec::new(), format: Format::default() }
    }

    /// A text label: the bytes of `text`, one cell each, from `start`
    /// rightwards.
    pub fn from_str(start: Point, text: &str, format: Format) -> (out: Self)
        requires
            start.x + text.spec_bytes().len() <= 0x10000,
        ensures
            out@ == label(start, text.spec_bytes()),
            out.format == format,
    {
        let bytes = text.as_bytes();
        let n = bytes.len();
        let mut cells: Vec<Cell> = Vec::new();
        let mut i: usize = 0;
        while i < n
            invariant
                n == bytes@.len(),
                bytes@ == text.spec_bytes(),
                start.x + n <= 0x10000,
                i <= n,
                cells@ == label(start, bytes@).take(i as int),
            decreases n - i,
        {
            let x: u16 = (start.x as usize + i) as u16;
            let cell = Cell { pos: Point { x, y: start.y }, content: bytes[i] as char };
            cells.push(cell);
            assert(cells@ =~= label(start, bytes@).take(i + 1));
            i = i + 1;
        }
        assert(cells@ =~= label(start, bytes@));
        Self { cells, format }
    }

    /// Appends one cell.
    pub fn add(&mut self, cell: Cell)
        ensures
            final(self)@ == old(self)@.push(cell),
            final(self).format == old(self).format,
    {
        self.cells.push(cell);
    }

    /// Removes every cell and keeps the segment.
    pub fn clear(&mut self)
        ensures
            final(self)@ == Seq::<Cell>::empty(),
            final(self).format == old(self).format,
    {
        self.cells.clear();
    }

    pub fn set_format(&mut self, format: Format)
        ensures
            final(self)@ == old(self)@,
            final(self).format == format,
    {
        self.format = format;
    }

    /// Appends the cells of `rhs`, which keep their order.
    pub fn append(&mut self, rhs: &Segment)
        ensures
            final(self)@ == old(self)@ + rhs@,
            final(self).format == old(self).format,
    {
        let n = rhs.cells.len();
        let mut i: usize = 0;
        while i < n
            invariant
                n == rhs@.len(),
                i <= n,
                self@ == old(self)@ + rhs@.take(i as int),
                self.format == old(self).format,
            decreases n - i,
        {
            self.cells.push(rhs.cells[i]);
            assert(self@ =~= old(self)@ + rhs@.take(i + 1));
            i = i + 1;
        }
        assert(self@ =~= old(self)@ + rhs@);
    }

    /// Appends the text that draws this segment.
    pub fn render_into(&self, text: &mut String)
        ensures
            final(text)@ == old(text)@ + segment_text(self@, self.format),
    {
        self.format.render_into(text);
        let n = self.cells.len();
        let mut i: usize = 0;
        while i < n
            invariant
                n == self@.len(),
                i <= n,
                text@ == old(text)@ + self.format.text() + cells_text(self@.take(i as int)),
            decreases n - i,
        {
            self.cells[i].render_into(text);
            proof {
                lemma_cells_text_push(self@.take(i as int), self@[i as int]);
                assert(self@.take(i as int).push(self@[i as int]) =~= self@.take(i + 1));
                assert(text@ =~= old(text)@ + self.format.text() + cells_text(self@.take(i + 1)));
            }
            i = i + 1;
        }
        assert(self@.take(n as int) =~= self@);
        Format::default().render_into(text);
        assert(text@ =~= old(text)@ + segment_text(self@, self.format));
    }

    /// The text that draws this segment.
    pub fn render(&self) -> (out: String)
        ensures
            out@ == segment_text(self@, self.format),
    {
        let mut text = String::new();
        self.render_into(&mut text);
        assert(text@ =~= segment_text(self@, self.format));
        text
    }
}

impl Clone for Segment {
    fn clone(&self) -> (out: Self)
        ensures
            out@ == self@,
            out.format == self.format,
    {
        let mut out = Segment { cells: Vec::new(), format: self.format };
        out.append(self);
        assert(out@ =~= self@);
        out
    }
}

impl Default for Segment {
    fn default() -> (out: Self)
        ensures
            out@ == Seq::<Cell>::empty(),
            out.format == plain(),
    {
        Segment::new()
    }
}

impl Erase for Segment {
    open spec fn cells(&self) -> Seq<Cell> {
        self@
    }

    fn erase(&mut self) -> (out: String)
        ensures
            final(self).format == old(self).format,
    {
        let mut text = String::new();
        let n = self.cells.len();
        let mut i: usize = 0;
        while i < n
            invariant
                n == old(self)@.len(),
                self@.len() == n,
                i <= n,
                self.format == old(self).format,
                forall|k: int| 0 <= k < i ==> self@[k] == blank(old(self)@[k]),
                forall|k: int| i <= k < n ==> self@[k] == old(self)@[k],
                text@ == cells_text(blanked(old(self)@).take(i as int)),
            decreases n - i,
        {
            let mut cell = self.cells[i];
            cell.content = ' ';
            self.cells.set(i, cell);
            cell.render_into(&mut text);
            proof {
                let done = blanked(old(self)@);
                lemma_cells_text_push(done.take(i as int), done[i as int]);
                assert(done.take(i as int).push(done[i as int]) =~= done.take(i + 1));
            }
            i = i + 1;
        }
        proof {
            assert(blanked(old(self)@).take(n as int) =~= blanked(old(self)@));
            assert(self@ =~= blanked(old(self)@));
        }
        text
    }
}

/// The smaller of two coordinates.
pub open spec fn lower(a: u16, b: u16) -> u16 {
    if a <= b {
        a
    } else {
        b
    }
}

/// The larger of two coordinates.
pub open spec fn upper(a: u16, b: u16) -> u16 {
    if a >= b {
        a
    } else {
        b
    }
}

/// The two corners of the smallest rectangle that holds every cell of
/// `cells`: first the least column and row, then the greatest. It has a
/// meaning only where there is a cell.
pub open spec fn bounds(cells: Seq<Cell>) -> (Point, Point)
    recommends
        cells.len() > 0,
    decreases cells.len(),
{
    if cells.len() <= 1 {
        (cells[0].pos, cells[0].pos)
    } else {
        let rest = bounds(cells.drop_last());
        let p = cells.last().pos;
        (
            Point { x: lower(rest.0.x, p.x), y: lower(rest.0.y, p.y) },
            Point { x: upper(rest.1.x, p.x), y: upper(rest.1.y, p.y) },
        )
    }
}

/// Whether `low` and `high` are the corners of the smallest rectangle that
/// holds every cell of `cells`: no cell lies outside, and each of the four
/// sides is touched by some cell.
pub open spec fn spans(cells: Seq<Cell>, low: Point, high: Point) -> bool {
    &&& forall|i: int|
        0 <= i < cells.len() ==> low.x <= (#[trigger] cells[i]).pos.x <= high.x && low.y
            <= cells[i].pos.y <= high.y
    &&& exists|i: int| 0 <= i < cells.len() && (#[trigger] cells[i]).pos.x == low.x
    &&& exists|i: int| 0 <= i < cells.len() && (#[trigger] cells[i]).pos.y == low.y
    &&& exists|i: int| 0 <= i < cells.len() && (#[trigger] cells[i]).pos.x == high.x
    &&& exists|i: int| 0 <= i < cells.len() && (#[trigger] cells[i]).pos.y == high.y
}

/// The corners that `bounds` gives are those of the smallest rectangle
/// that holds every cell.
pub proof fn lemma_bounds_span(cells: Seq<Cell>)
    requires
        cells.len() > 0,
    ensures
        spans(cells, bounds(cells).0, bounds(cells).1),
    decreases cells.len(),
{
    let (low, high) = bounds(cells);
    if cells.len() == 1 {
        assert(cells[0].pos.x == low.x);
    } else {
        let rest = cells.drop_last();
        let last = cells.len() - 1;
        lemma_bounds_span(rest);
        let (rl, rh) = bounds(rest);
        assert forall|i: int| 0 <= i < cells.len() implies low.x <= (#[trigger] cells[i]).pos.x
            <= high.x && low.y <= cells[i].pos.y <= high.y by {
            if i < last {
                assert(cells[i] == rest[i]);
            }
        }
        let ax = choose|i: int| 0 <= i < rest.len() && (#[trigger] rest[i]).pos.x == rl.x;
        let ay = choose|i: int| 0 <= i < rest.len() && (#[trigger] rest[i]).pos.y == rl.y;
        let bx = choose|i: int| 0 <= i < rest.len() && (#[trigger] rest[i]).pos.x == rh.x;
        let by = choose|i: int| 0 <= i < rest.len() && (#[trigger] rest[i]).pos.y == rh.y;
        assert(cells[ax] == rest[ax] && cells[ay] == rest[ay] && cells[bx] == rest[bx] && cells[by]
            == rest[by]);
        let p = cells[last].pos;
        assert(cells[if low.x == p.x { last } else { ax }].pos.x == low.x);
        assert(cells[if low.y == p.y { last } else { ay }].pos.y == low.y);
        assert(cells[if high.x == p.x { last } else { bx }].pos.x == high.x);
        assert(cells[if high.y == p.y { last } else { by }].pos.y == high.y);
    }
}

/// Only one pair of corners spans a run of cells.
pub proof fn lemma_spans_unique(cells: Seq<Cell>, low: Point, high: Point)
    requires
        spans(cells, low, high),
    ensures
        cells.len() > 0,
        (low, high) == bounds(cells),
{
    lemma_bounds_span(cells);
}

impl Segment {
    /// The corners of the smallest rectangle that holds every cell, or
    /// nothing for an empty segment.
    pub fn boundaries(&self) -> (out: Option<(Point, Point)>)
        ensures
            self@.len() == 0 ==> out.is_none(),
            self@.len() > 0 ==> out == Some(bounds(self@)),
            self@.len() > 0 ==> spans(self@, out.unwrap().0, out.unwrap().1),
    {
        let n = self.cells.len();
        if n == 0 {
            return None;
        }
        let first = self.cells[0].pos;
        let mut low = first;
        let mut high = first;
        let mut i: usize = 1;
        assert(self@.take(1).len() == 1);
        while i < n
            invariant
                n == self@.len(),
                1 <= i <= n,
                (low, high) == bounds(self@.take(i as int)),
            decreases n - i,
        {
            let p = self.cells[i].pos;
            if p.x < low.x {
                low.x = p.x;
            }
            if p.y < low.y {
                low.y = p.y;
            }
            if p.x > high.x {
                high.x = p.x;
            }
            if p.y > high.y {
                high.y = p.y;
            }
            proof {
                let next = self@.take(i + 1);
                assert(next.drop_last() =~= self@.take(i as int));
                assert(next.last() == self@[i as int]);
            }
            i = i + 1;
        }
        proof {
            assert(self@.take(n as int) =~= self@);
            lemma_bounds_span(self@);
        }
        Some((low, high))
    }
}

/// The glyphs that a stroke is drawn with, one for each direction of
/// travel.
#[derive(Debug, Copy, Clone, PartialEq, Eq, Structural)]
pub struct CharSet {
    pub stationary: char,
    pub up: char,
    pub down: char,
    pub left: char,
    pub right: char,
    pub diagonal_back: char,
    pub diagonal_forward: char,
}

/// The usual glyphs: bars, underscores and the two slashes.
pub open spec fn default_glyphs() -> CharSet {
    CharSet {
        stationary: '.',
        up: '|',
        down: '|',
        left: '_',
        right: '_',
        diagonal_back: '\\',
        diagonal_forward: '/',
    }
}

impl CharSet {
    /// The glyph for a move from `from` to `to`, by the direction of travel
    /// on the screen: rows count downwards, columns to the right.
    pub open spec fn glyph(self, from: Point, to: Point) -> char {
        if to.x == from.x && to.y < from.y {
            self.up
        } else if to.x == from.x && to.y > from.y {
            self.down
        } else if to.y == from.y && to.x < from.x {
            self.left
        } else if to.y == from.y && to.x > from.x {
            self.right
        } else if (to.x < from.x && to.y < from.y) || (to.x > from.x && to.y > from.y) {
            self.diagonal_back
        } else if (to.x < from.x && to.y > from.y) || (to.x > from.x && to.y < from.y) {
            self.diagonal_forward
        } else {
            self.stationary
        }
    }

    /// The glyph for a move from `from` to `to`.
    pub fn next(&self, from: Point, to: Point) -> (out: char)
        ensures
            out == self.glyph(from, to),
    {
        if to.x == from.x && to.y < from.y {
            self.up
        } else if to.x == from.x && to.y > from.y {
            self.down
        } else if to.y == from.y && to.x < from.x {
            self.left
        } else if to.y == from.y && to.x > from.x {
            self.right
        } else if (to.x < from.x && to.y < from.y) || (to.x > from.x && to.y > from.y) {
            self.diagonal_back
        } else if (to.x < from.x && to.y > from.y) || (to.x > from.x && to.y < from.y) {
            self.diagonal_forward
        } else {
            self.stationary
        }
    }
}

impl Default for CharSet {
    fn default() -> (out: Self)
        ensures
            out == default_glyphs(),
    {
        CharSet {
            stationary: '.',
            up: '|',
            down: '|',
            left: '_',
            right: '_',
            diagonal_back: '\\',
            diagonal_forward: '/',
        }
    }
}

/// What a segment is: its cells in order, and its format.
#[verifier::ext_equal]
pub struct Stroke {
    pub cells: Seq<Cell>,
    pub format: Format,
}

impl Stroke {
    /// The text that draws this stroke.
    pub open spec fn text(self) -> Seq<char> {
        segment_text(self.cells, self.format)
    }
}

impl Segment {
    /// What this segment is.
    pub open spec fn stroke(&self) -> Stroke {
        Stroke { cells: self@, format: self.format }
    }
}

/// What each of the segments is.
pub open spec fn strokes(segments: Seq<Segment>) -> Seq<Stroke> {
    Seq::new(segments.len(), |i: int| segments[i].stroke())
}

/// Blanking two runs of cells one after the other blanks their
/// concatenation.
pub proof fn lemma_blanked_concat(a: Seq<Cell>, b: Seq<Cell>)
    ensures
        blanked(a + b) == blanked(a) + blanked(b),
{
    assert(blanked(a + b) =~= blanked(a) + blanked(b));
}

impl Segment {
    /// Appends the text that overwrites each cell of this segment with a
    /// space at its position.
    pub fn wipe_into(&self, text: &mut String)
        ensures
            final(text)@ == old(text)@ + cells_text(blanked(self@)),
    {
        let n = self.cells.len();
        let mut i: usize = 0;
        assert(old(text)@ + cells_text(blanked(self@).take(0)) =~= old(text)@);
        while i < n
            invariant
                n == self@.len(),
                i <= n,
                text@ == old(text)@ + cells_text(blanked(self@).take(i as int)),
            decreases n - i,
        {
            let gone = Cell { pos: self.cells[i].pos, content: ' ' };
            gone.render_into(text);
            proof {
                let done = blanked(self@);
                lemma_cells_text_push(done.take(i as int), done[i as int]);
                assert(done.take(i as int).push(done[i as int]) =~= done.take(i + 1));
                assert(text@ =~= old(text)@ + cells_text(done.take(i + 1)));
            }
            i = i + 1;
        }
        assert(blanked(self@).take(n as int) =~= blanked(self@));
    }
}

/// The text that overwrites `cell` with a space at its position.
pub fn clear_cell(cell: Cell) -> (out: String)
    ensures
        out@ == cell_text(blank(cell)),
{
    let mut gone = cell;
    gone.content = ' ';
    gone.render()
}

/// The text that overwrites each cell of `segment` with a space at its
/// position.
pub fn clear_segment(segment: Segment) -> (out: String)
    ensures
        out@ == cells_text(blanked(segment@)),
{
    let mut text = String::new();
    segment.wipe_into(&mut text);
    assert(text@ =~= cells_text(blanked(segment@)));
    text
}

} // verus!
