//! The canvas engine: the finished strokes, the stroke in progress, the
//! tool in use and the pointer, with the text that each change puts on the
//! screen.

use vstd::prelude::*;
use crate::export::{joined, raster, rasterize, unify, ExportError};
use crate::grid::{
    blanked, cells_text, lemma_blanked_concat, lemma_cells_text_concat, strokes, Cell, Erase, Point,
    Segment, Stroke,
};
use crate::path::Connect;
use crate::style::plain;
use crate::terminal::{MouseAction, MouseEvent};

verus! {

/// The first row on which strokes may be drawn, unless the canvas is told
/// otherwise; the rows above it hold the toolbar.
pub const TOOLBAR_BOUNDARY: u16 = 3;

/// The drawing tools.
#[derive(Debug, Copy, Clone, PartialEq, Eq, Hash, Structural)]
pub enum Tool {
    /// Freehand: the stroke follows the pointer.
    Plot,
    /// Ruler: a straight stroke from where the pointer was pressed.
    Line,
    /// Eraser: blanks the cells under the pointer.
    Erase,
}

impl Tool {
    /// The tool that a digit key selects.
    pub open spec fn of_key(key: char) -> Tool {
        if key == '3' {
            Tool::Erase
        } else if key == '2' {
            Tool::Line
        } else {
            Tool::Plot
        }
    }
}

impl Tool {
    /// The tool that a digit key selects: `3` the eraser, `2` the ruler,
    /// any other the freehand tool.
    pub fn for_key(key: char) -> (out: Tool)
        ensures
            out == Tool::of_key(key),
    {
        if key == '3' {
            Tool::Erase
        } else if key == '2' {
            Tool::Line
        } else {
            Tool::Plot
        }
    }
}

impl Default for Tool {
    fn default() -> (out: Self)
        ensures
            out == Tool::Plot,
    {
        Tool::Plot
    }
}

impl From<char> for Tool {
    fn from(key: char) -> (out: Self) {
        Tool::for_key(key)
    }
}

impl vstd::std_specs::convert::FromSpecImpl<char> for Tool {
    open spec fn obeys_from_spec() -> bool {
        true
    }

    open spec fn from_spec(key: char) -> Self {
        Tool::of_key(key)
    }
}

/// What a canvas holds.
#[verifier::ext_equal]
pub struct Drawing {
    /// The finished strokes, oldest first.
    pub committed: Seq<Stroke>,
    /// The stroke in progress.
    pub working: Stroke,
    /// What lies on top of the drawing and is no part of it.
    pub overlay: Stroke,
    /// Where the pointer was last seen.
    pub cursor: Point,
    pub tool: Tool,
    /// The first row on which strokes may be drawn.
    pub boundary: u16,
}

/// The cells of each stroke.
pub open spec fn cells_of(strokes: Seq<Stroke>) -> Seq<Seq<Cell>> {
    Seq::new(strokes.len(), |i: int| strokes[i].cells)
}

/// The text that draws the strokes one after another.
pub open spec fn strokes_text(strokes: Seq<Stroke>) -> Seq<char>
    decreases strokes.len(),
{
    if strokes.len() == 0 {
        Seq::empty()
    } else {
        strokes_text(strokes.drop_last()) + strokes.last().text()
    }
}

impl Drawing {
    /// The pointer is pressed at `p`.
    pub open spec fn press(self, p: Point) -> Drawing {
        Drawing { cursor: p, ..self }
    }

    /// Whether a drag to `p` draws: not inside the toolbar's rows.
    pub open spec fn drawable(self, p: Point) -> bool {
        p.y >= self.boundary
    }

    /// The pointer is dragged to `p`, and `route` is the stroke from the
    /// cursor to `p`. With the freehand tool the stroke in progress grows
    /// by the route and the cursor follows; with the ruler the route
    /// replaces the stroke in progress and the cursor stays; the eraser
    /// adds one blank cell at `p`.
    pub open spec fn drag(self, p: Point, route: Seq<Cell>) -> Drawing {
        if !self.drawable(p) {
            self
        } else {
            match self.tool {
                Tool::Plot => Drawing {
                    working: Stroke {
                        cells: self.working.cells + route,
                        format: self.working.format,
                    },
                    cursor: p,
                    ..self
                },
                Tool::Line => Drawing { working: Stroke { cells: route, format: plain() }, ..self },
                Tool::Erase => Drawing {
                    working: Stroke {
                        cells: self.working.cells.push(Cell { pos: p, content: ' ' }),
                        format: self.working.format,
                    },
                    ..self
                },
            }
        }
    }

    /// What a drag to `p` wipes off the screen: with the ruler, the stroke
    /// in progress; otherwise nothing.
    pub open spec fn drag_wipes(self, p: Point) -> Seq<Cell> {
        if self.drawable(p) && self.tool == Tool::Line {
            blanked(self.working.cells)
        } else {
            Seq::empty()
        }
    }

    /// The pointer is released: the stroke in progress is finished and a
    /// new, empty one begins.
    pub open spec fn release(self) -> Drawing {
        Drawing {
            committed: self.committed.push(self.working),
            working: Stroke { cells: Seq::empty(), format: self.working.format },
            ..self
        }
    }

    /// The latest finished stroke is taken back, if there is one.
    pub open spec fn undo(self) -> Drawing {
        if self.committed.len() == 0 {
            self
        } else {
            Drawing { committed: self.committed.drop_last(), ..self }
        }
    }

    /// What an undo wipes off the screen: the cells of the latest finished
    /// stroke.
    pub open spec fn undo_wipes(self) -> Seq<Cell> {
        if self.committed.len() == 0 {
            Seq::empty()
        } else {
            blanked(self.committed.last().cells)
        }
    }

    /// Everything drawn is dropped.
    pub open spec fn clear(self) -> Drawing {
        Drawing {
            committed: Seq::empty(),
            working: Stroke { cells: Seq::empty(), format: self.working.format },
            ..self
        }
    }

    /// What clearing wipes off the screen: the cells of every finished
    /// stroke, oldest first, then those of the stroke in progress.
    pub open spec fn clear_wipes(self) -> Seq<Cell> {
        blanked(joined(cells_of(self.committed)) + self.working.cells)
    }

    /// The text of one frame: the finished strokes, the stroke in progress,
    /// then the overlay, which so covers the drawing.
    pub open spec fn frame(self) -> Seq<char> {
        strokes_text(self.committed) + self.working.text() + self.overlay.text()
    }

    /// All finished strokes laid over one another.
    pub open spec fn blueprint(self) -> Seq<Cell> {
        joined(cells_of(self.committed))
    }
}

impl Drawing {
    /// A pointer event, where `route` is the stroke from the cursor to the
    /// event's position.
    pub open spec fn apply(self, event: MouseEvent, route: Seq<Cell>) -> Drawing {
        match event.action {
            MouseAction::Press => self.press(event.pos),
            MouseAction::Drag => self.drag(event.pos, route),
            MouseAction::Release => self.release(),
        }
    }

    /// What a pointer event wipes off the screen.
    pub open spec fn wipes(self, event: MouseEvent) -> Seq<Cell> {
        match event.action {
            MouseAction::Drag => self.drag_wipes(event.pos),
            _ => Seq::empty(),
        }
    }
}

/// A canvas that has nothing on it.
pub open spec fn blank_canvas(boundary: u16) -> Drawing {
    Drawing {
        committed: Seq::empty(),
        working: Stroke { cells: Seq::empty(), format: plain() },
        overlay: Stroke { cells: Seq::empty(), format: plain() },
        cursor: Point { x: 1, y: 1 },
        tool: Tool::Plot,
        boundary,
    }
}

/// The drawing surface. Its operations change what it holds and return the
/// text that brings the screen up to date; nothing is wiped but the cells
/// that an operation removes.
pub struct Canvas<B: Connect> {
    pub brush: B,
    pub tool: Tool,
    pub base: Vec<Segment>,
    pub overlay: Segment,
    pub sketch: Segment,
    pub cursor: Point,
    pub boundary: u16,
}

impl<B: Connect> View for Canvas<B> {
    type V = Drawing;

    open spec fn view(&self) -> Drawing {
        Drawing {
            committed: strokes(self.base@),
            working: self.sketch.stroke(),
            overlay: self.overlay.stroke(),
            cursor: self.cursor,
            tool: self.tool,
            boundary: self.boundary,
        }
    }
}

impl<B: Connect> Canvas<B> {
    /// An empty canvas that draws with `brush` and keeps the usual rows
    /// free for the toolbar.
    pub fn new(brush: B) -> (out: Self)
        ensures
            out@ == blank_canvas(TOOLBAR_BOUNDARY),
            out.brush == brush,
    {
        Canvas::with_boundary(brush, TOOLBAR_BOUNDARY)
    }

    /// An empty canvas that draws with `brush` on the rows from `boundary`
    /// downwards.
    pub fn with_boundary(brush: B, boundary: u16) -> (out: Self)
        ensures
            out@ == blank_canvas(boundary),
            out.brush == brush,
    {
        let out = Self {
            brush,
            tool: Tool::Plot,
            base: Vec::new(),
            overlay: Segment::new(),
            sketch: Segment::new(),
            cursor: Point { x: 1, y: 1 },
            boundary,
        };
        assert(out@ =~~= blank_canvas(boundary));
        out
    }

    /// Puts `overlay` on top of the drawing.
    pub fn pin(&mut self, overlay: Segment)
        ensures
            final(self)@ == (Drawing { overlay: overlay.stroke(), ..old(self)@ }),
            final(self).brush == old(self).brush,
    {
        self.overlay = overlay;
    }

    /// Switches to another tool; the drawing stays as it is.
    pub fn alt_style(&mut self, tool: Tool)
        ensures
            final(self)@ == (Drawing { tool, ..old(self)@ }),
            final(self).brush == old(self).brush,
    {
        self.tool = tool;
    }

    /// Takes a pointer event and returns the text that wipes what the
    /// event removes from the screen.
    pub fn update(&mut self, event: MouseEvent) -> (out: String)
        ensures
            final(self)@ == old(self)@.apply(
                event,
                old(self).brush.route(old(self).cursor, event.pos),
            ),
            final(self).brush == old(self).brush,
            out@ == cells_text(old(self)@.wipes(event)),
    {
        let p = event.pos;
        let mut text = String::new();
        match event.action {
            MouseAction::Press => {
                self.cursor = p;
            },
            MouseAction::Drag => {
                if p.y >= self.boundary {
                    match self.tool {
                        Tool::Plot => {
                            let route = self.brush.connect(self.cursor, p);
                            self.sketch.append(&route);
                            self.cursor = p;
                        },
                        Tool::Line => {
                            text = self.sketch.erase();
                            self.sketch = self.brush.connect(self.cursor, p);
                        },
                        Tool::Erase => {
                            self.sketch.add(Cell::new(p, ' '));
                        },
                    }
                }
            },
            MouseAction::Release => {
                self.base.push(self.sketch.clone());
                self.sketch.clear();
            },
        }
        proof {
            let route = old(self).brush.route(old(self).cursor, event.pos);
            assert(self@ =~~= old(self)@.apply(event, route));
            assert(text@ =~= cells_text(old(self)@.wipes(event)));
        }
        text
    }

    /// The text of one frame: the finished strokes, the stroke in progress
    /// and, last, the overlay.
    pub fn draw(&self) -> (out: String)
        ensures
            out@ == self@.frame(),
    {
        let mut text = String::new();
        let n = self.base.len();
        let mut i: usize = 0;
        let ghost all = strokes(self.base@);
        while i < n
            invariant
                n == self.base@.len(),
                all == strokes(self.base@),
                i <= n,
                text@ == strokes_text(all.take(i as int)),
            decreases n - i,
        {
            self.base[i].render_into(&mut text);
            proof {
                assert(all.take(i + 1).drop_last() =~= all.take(i as int));
                assert(all.take(i + 1).last() == self.base@[i as int].stroke());
            }
            i = i + 1;
        }
        assert(all.take(n as int) =~= all);
        self.sketch.render_into(&mut text);
        self.overlay.render_into(&mut text);
        text
    }

    /// A copy of the finished strokes, oldest first.
    pub fn snapshot(&self) -> (out: Vec<Segment>)
        ensures
            strokes(out@) == self@.committed,
    {
        let mut out: Vec<Segment> = Vec::new();
        let n = self.base.len();
        let mut i: usize = 0;
        while i < n
            invariant
                n == self.base@.len(),
                i <= n,
                out@.len() == i,
                strokes(out@) == strokes(self.base@).take(i as int),
            decreases n - i,
        {
            let ghost before = out@;
            out.push(self.base[i].clone());
            proof {
                let target = strokes(self.base@).take(i + 1);
                assert forall|k: int| 0 <= k < target.len() implies strokes(out@)[k]
                    == target[k] by {
                    if k < i {
                        assert(out@[k] == before[k]);
                        assert(strokes(before)[k] == strokes(self.base@).take(i as int)[k]);
                    } else {
                        assert(out@[k].stroke() =~= self.base@[k].stroke());
                    }
                }
                assert(strokes(out@) =~= target);
            }
            i = i + 1;
        }
        assert(strokes(self.base@).take(n as int) =~= strokes(self.base@));
        out
    }

    /// Adds a finished stroke.
    pub fn add(&mut self, segment: Segment)
        ensures
            final(self)@ == (Drawing {
                committed: old(self)@.committed.push(segment.stroke()),
                ..old(self)@
            }),
            final(self).brush == old(self).brush,
    {
        self.base.push(segment);
        assert(self@ =~~= (Drawing {
            committed: old(self)@.committed.push(segment.stroke()),
            ..old(self)@
        }));
    }

    /// Takes back the latest finished stroke and returns the text that
    /// wipes it off the screen. With no finished stroke nothing changes
    /// and the text is empty.
    pub fn undo(&mut self) -> (out: String)
        ensures
            final(self)@ == old(self)@.undo(),
            final(self).brush == old(self).brush,
            out@ == cells_text(old(self)@.undo_wipes()),
    {
        match self.base.pop() {
            Some(mut segment) => {
                let text = segment.erase();
                assert(self@ =~~= old(self)@.undo());
                text
            },
            None => {
                assert(self@ =~~= old(self)@.undo());
                String::new()
            },
        }
    }

    /// Drops everything drawn and returns the text that wipes it off the
    /// screen.
    pub fn clear(&mut self) -> (out: String)
        ensures
            final(self)@ == old(self)@.clear(),
            final(self).brush == old(self).brush,
            out@ == cells_text(old(self)@.clear_wipes()),
    {
        let mut text = String::new();
        let n = self.base.len();
        let mut i: usize = 0;
        let ghost all = cells_of(strokes(self.base@));
        assert(joined(all.take(0)) =~= Seq::<Cell>::empty());
        assert(blanked(Seq::<Cell>::empty()) =~= Seq::<Cell>::empty());
        while i < n
            invariant
                n == self.base@.len(),
                all == cells_of(strokes(self.base@)),
                i <= n,
                text@ == cells_text(blanked(joined(all.take(i as int)))),
            decreases n - i,
        {
            self.base[i].wipe_into(&mut text);
            proof {
                let before = joined(all.take(i as int));
                let these = self.base@[i as int]@;
                assert(all.take(i + 1).drop_last() =~= all.take(i as int));
                assert(all.take(i + 1).last() == these);
                lemma_blanked_concat(before, these);
                lemma_cells_text_concat(blanked(before), blanked(these));
            }
            i = i + 1;
        }
        self.sketch.wipe_into(&mut text);
        proof {
            assert(all.take(n as int) =~= all);
            lemma_blanked_concat(joined(all), self.sketch@);
            lemma_cells_text_concat(blanked(joined(all)), blanked(self.sketch@));
        }
        self.base.clear();
        self.sketch.clear();
        assert(self@ =~~= old(self)@.clear());
        text
    }

    /// The drawing as plain text, or the report that nothing has been
    /// drawn: no finished stroke holds a cell.
    pub fn export(&self) -> (out: Result<String, ExportError>)
        ensures
            self@.blueprint().len() == 0 <==> out.is_err(),
            out.is_err() ==> out.unwrap_err() == ExportError::EmptyDesign,
            out.is_ok() ==> out.unwrap()@ == raster(self@.blueprint()),
    {
        let blueprint = unify(&self.base);
        assert(crate::export::strokes_of(self.base@) =~= cells_of(strokes(self.base@)));
        rasterize(&blueprint)
    }
}

/// Undo with no finished stroke changes nothing and wipes nothing off the
/// screen.
pub proof fn lemma_undo_of_nothing(drawing: Drawing)
    requires
        drawing.committed.len() == 0,
    ensures
        drawing.undo() == drawing,
        cells_text(drawing.undo_wipes()) == Seq::<char>::empty(),
{
}

/// Undo takes back what a release has just finished, and wipes exactly the
/// cells of that stroke.
pub proof fn lemma_undo_after_release(drawing: Drawing)
    ensures
        drawing.release().undo().committed == drawing.committed,
        drawing.release().undo_wipes() == blanked(drawing.working.cells),
{
    assert(drawing.committed.push(drawing.working).drop_last() =~= drawing.committed);
}

/// After a release and a clear no finished stroke is left, so that there
/// is no cell to export.
pub proof fn lemma_clear_after_release(drawing: Drawing)
    ensures
        drawing.release().clear().committed == Seq::<Stroke>::empty(),
        drawing.release().clear().working.cells == Seq::<Cell>::empty(),
        drawing.release().clear().blueprint() == Seq::<Cell>::empty(),
{
    assert(cells_of(Seq::<Stroke>::empty()) =~= Seq::<Seq<Cell>>::empty());
}

/// Neither the overlay nor the choice of tool is part of what is exported.
pub proof fn lemma_blueprint_of_strokes_only(drawing: Drawing, overlay: Stroke, tool: Tool)
    ensures
        (Drawing { overlay, tool, ..drawing }).blueprint() == drawing.blueprint(),
{
}

} // verus!
