//! The direct brushes: they put glyphs on the screen right where the
//! pointer goes, without a canvas behind them. The first row of the screen
//! is kept free for the usage line.

use vstd::prelude::*;
use crate::ansi::goto;
use crate::grid::{cell_text, Cell, Point};
use crate::path::{approach, gap};
use crate::terminal::{Event, MouseAction};

verus! {

/// The glyph kinds of the direct brushes.
#[derive(Debug, Copy, Clone, PartialEq, Eq, Structural)]
pub enum Char {
    Stationary,
    Vertical,
    Horizontal,
    DiagonalRight,
    DiagonalLeft,
}

impl Char {
    /// The character that is drawn for this kind.
    pub open spec fn glyph(self) -> char {
        match self {
            Char::Stationary => '.',
            Char::Vertical => '|',
            Char::Horizontal => '_',
            Char::DiagonalRight => '\\',
            Char::DiagonalLeft => '/',
        }
    }

    /// The kind of glyph for a move from `from` to `to`.
    pub open spec fn of_move(from: Point, to: Point) -> Char {
        if to.x == from.x && to.y != from.y {
            Char::Vertical
        } else if to.x != from.x && to.y == from.y {
            Char::Horizontal
        } else if (to.x > from.x && to.y > from.y) || (to.x < from.x && to.y < from.y) {
            Char::DiagonalRight
        } else if (to.x > from.x && to.y < from.y) || (to.x < from.x && to.y > from.y) {
            Char::DiagonalLeft
        } else {
            Char::Stationary
        }
    }

    /// The character that is drawn for this kind.
    pub fn to_char(self) -> (out: char)
        ensures
            out == self.glyph(),
    {
        match self {
            Char::Stationary => '.',
            Char::Vertical => '|',
            Char::Horizontal => '_',
            Char::DiagonalRight => '\\',
            Char::DiagonalLeft => '/',
        }
    }
}

/// Formats termion's `cursor::Goto`. Trusted: the text is the control
/// sequence introducer, the row, a semicolon, the column and `H`, both
/// numbers in decimal. Termion refuses the position with column and row
/// both zero.
#[verifier::external_body]
fn goto_text(x: u16, y: u16) -> (out: String)
    requires
        x != 0 || y != 0,
    ensures
        out@ == goto(x, y),
{
    format!("{}", termion::cursor::Goto(x, y))
}

/// Where a brush stands, and the glyph of the move that brought it there.
#[derive(Debug, Copy, Clone, PartialEq, Eq, Structural)]
pub struct Cursor {
    pub x: u16,
    pub y: u16,
    pub char: Char,
}

impl Cursor {
    /// Where the cursor stands.
    pub open spec fn pos(self) -> Point {
        Point { x: self.x, y: self.y }
    }

    /// The cell that the cursor draws.
    pub open spec fn cell(self) -> Cell {
        Cell { pos: self.pos(), content: self.char.glyph() }
    }

    /// The cursor after a move to column `x`, row `y`.
    pub open spec fn moved(self, x: u16, y: u16) -> Cursor {
        Cursor { x, y, char: Char::of_move(self.pos(), Point { x, y }) }
    }

    pub fn new(x: u16, y: u16) -> (out: Self)
        ensures
            out == (Cursor { x, y, char: Char::Stationary }),
    {
        Self { x, y, char: Char::Stationary }
    }

    /// Moves the cursor and takes the glyph of the move.
    pub fn update(&mut self, x: u16, y: u16)
        ensures
            *final(self) == old(self).moved(x, y),
    {
        self.char = if x == self.x && y != self.y {
            Char::Vertical
        } else if x != self.x && y == self.y {
            Char::Horizontal
        } else if (x > self.x && y > self.y) || (x < self.x && y < self.y) {
            Char::DiagonalRight
        } else if (x > self.x && y < self.y) || (x < self.x && y > self.y) {
            Char::DiagonalLeft
        } else {
            Char::Stationary
        };
        self.x = x;
        self.y = y;
    }

    /// Appends the text that draws the cursor's glyph where it stands;
    /// nothing on the first row.
    pub fn plot(&self, text: &mut String)
        requires
            self.x != 0 || self.y != 0,
        ensures
            final(text)@ == old(text)@ + plot_text(self.cell()),
    {
        if self.y == 1 {
            assert(text@ =~= old(text)@ + plot_text(self.cell()));
            return ;
        }
        let place = goto_text(self.x, self.y);
        text.push_str(place.as_str());
        text.push(self.char.to_char());
        assert(text@ =~= old(text)@ + plot_text(self.cell()));
    }
}

/// The text that a direct brush writes for `cell`: nothing on the first
/// row, which is kept free, else the move to its position and its glyph.
pub open spec fn plot_text(cell: Cell) -> Seq<char> {
    if cell.pos.y == 1 {
        Seq::empty()
    } else {
        cell_text(cell)
    }
}

/// The text that a direct brush writes for `cells`, one after another.
pub open spec fn plots_text(cells: Seq<Cell>) -> Seq<char>
    decreases cells.len(),
{
    if cells.len() == 0 {
        Seq::empty()
    } else {
        plots_text(cells.drop_last()) + plot_text(cells.last())
    }
}

/// The cells of a ruled line from `from` to `to`: first along the row of
/// `from` to the column of `to`, then along that column to `to`. The
/// starting point gets no cell.
pub open spec fn ruled(from: Point, to: Point) -> Seq<Cell> {
    Seq::new(
        gap(from.x, to.x) + gap(from.y, to.y),
        |i: int|
            if i < gap(from.x, to.x) {
                Cell {
                    pos: Point { x: approach(from.x, to.x, (i + 1) as nat), y: from.y },
                    content: '_',
                }
            } else {
                Cell {
                    pos: Point {
                        x: to.x,
                        y: approach(from.y, to.y, (i - gap(from.x, to.x) + 1) as nat),
                    },
                    content: '|',
                }
            },
    )
}

/// Whether no cell of `cells` lies on the position with column and row
/// both zero, which cannot be addressed.
pub open spec fn addressable(cells: Seq<Cell>) -> bool {
    forall|i: int| 0 <= i < cells.len() ==> (#[trigger] cells[i]).pos != (Point { x: 0, y: 0 })
}

/// A tool that paints straight to the screen.
pub trait Brush {
    /// Where the brush stands.
    spec fn cursor(&self) -> Cursor;

    /// Whether the brush can take `event`: what it would draw can be
    /// addressed.
    spec fn accepts(&self, event: Event) -> bool;

    /// Takes an input event and returns the text that draws what the
    /// event adds to the screen.
    fn paint(&mut self, event: Event) -> (out: String)
        requires
            old(self).accepts(event),
    ;
}

/// The freehand brush: it plots a glyph wherever the pointer is seen.
#[derive(Debug)]
pub struct FreeBrush {
    pub cursor: Cursor,
}

impl FreeBrush {
    pub fn new() -> (out: Self)
        ensures
            out.cursor == (Cursor { x: 1, y: 2, char: Char::Stationary }),
    {
        Self { cursor: Cursor::new(1, 2) }
    }
}

impl Brush for FreeBrush {
    open spec fn cursor(&self) -> Cursor {
        self.cursor
    }

    open spec fn accepts(&self, event: Event) -> bool {
        match event {
            Event::Mouse(mouse) => mouse.pos != (Point { x: 0, y: 0 }),
            Event::Key(_) => true,
        }
    }

    fn paint(&mut self, event: Event) -> (out: String)
        ensures
            match event {
                Event::Mouse(mouse) => {
                    &&& final(self).cursor == old(self).cursor.moved(mouse.pos.x, mouse.pos.y)
                    &&& out@ == plot_text(final(self).cursor.cell())
                },
                Event::Key(_) => final(self).cursor == old(self).cursor && out@ == Seq::<
                    char,
                >::empty(),
            },
    {
        let mut text = String::new();
        match event {
            Event::Mouse(mouse) => {
                self.cursor.update(mouse.pos.x, mouse.pos.y);
                self.cursor.plot(&mut text);
                assert(text@ =~= plot_text(self.cursor.cell()));
            },
            Event::Key(_) => {},
        }
        text
    }
}

/// The ruler brush: it remembers where the pointer was pressed and, on
/// release, rules a line from there, along the row and then along the
/// column.
#[derive(Debug)]
pub struct LineBrush {
    pub cursor: Cursor,
}

impl LineBrush {
    pub fn new() -> (out: Self)
        ensures
            out.cursor == (Cursor { x: 1, y: 2, char: Char::Stationary }),
    {
        Self { cursor: Cursor::new(1, 2) }
    }

    /// The glyph kind that the cursor holds after a line to `to`: that of
    /// the last step, or the one it had where there was no step.
    pub open spec fn char_after(cursor: Cursor, to: Point) -> Char {
        if cursor.y != to.y {
            Char::Vertical
        } else if cursor.x != to.x {
            Char::Horizontal
        } else {
            cursor.char
        }
    }
}

impl Brush for LineBrush {
    open spec fn cursor(&self) -> Cursor {
        self.cursor
    }

    open spec fn accepts(&self, event: Event) -> bool {
        match event {
            Event::Mouse(mouse) => mouse.action == MouseAction::Release ==> addressable(
                ruled(self.cursor.pos(), mouse.pos),
            ),
            Event::Key(_) => true,
        }
    }

    fn paint(&mut self, event: Event) -> (out: String)
        ensures
            match event {
                Event::Mouse(mouse) => match mouse.action {
                    MouseAction::Press => {
                        &&& final(self).cursor == old(self).cursor.moved(mouse.pos.x, mouse.pos.y)
                        &&& out@ == Seq::<char>::empty()
                    },
                    MouseAction::Release => {
                        &&& final(self).cursor == (Cursor {
                            x: mouse.pos.x,
                            y: mouse.pos.y,
                            char: LineBrush::char_after(old(self).cursor, mouse.pos),
                        })
                        &&& out@ == plots_text(ruled(old(self).cursor.pos(), mouse.pos))
                    },
                    MouseAction::Drag => final(self).cursor == old(self).cursor && out@ == Seq::<
                        char,
                    >::empty(),
                },
                Event::Key(_) => final(self).cursor == old(self).cursor && out@ == Seq::<
                    char,
                >::empty(),
            },
    {
        let mut text = String::new();
        match event {
            Event::Mouse(mouse) => match mouse.action {
                MouseAction::Press => {
                    self.cursor.update(mouse.pos.x, mouse.pos.y);
                },
                MouseAction::Release => {
                    let ghost from = self.cursor.pos();
                    let ghost start = self.cursor;
                    let ghost cells = ruled(from, mouse.pos);
                    let ghost across = gap(from.x, mouse.pos.x);
                    let ghost along = gap(from.y, mouse.pos.y);
                    let to = mouse.pos;
                    let ghost mut k: nat = 0;
                    assert(cells.take(0) =~= Seq::<Cell>::empty());
                    while self.cursor.x != to.x
                        invariant
                            from == start.pos(),
                            cells == ruled(from, to),
                            across == gap(from.x, to.x),
                            addressable(cells),
                            k <= across,
                            self.cursor.x == approach(from.x, to.x, k),
                            self.cursor.y == from.y,
                            k == 0 ==> self.cursor == start,
                            k > 0 ==> self.cursor.char == Char::Horizontal,
                            text@ == plots_text(cells.take(k as int)),
                        decreases across - k,
                    {
                        let next: u16 = if self.cursor.x > to.x {
                            self.cursor.x - 1
                        } else {
                            self.cursor.x + 1
                        };
                        self.cursor.update(next, self.cursor.y);
                        proof {
                            assert(self.cursor.cell() == cells[k as int]);
                            assert(cells.take(k as int + 1).drop_last() =~= cells.take(k as int));
                            assert(cells.take(k as int + 1).last() == cells[k as int]);
                        }
                        self.cursor.plot(&mut text);
                        proof {
                            k = k + 1;
                        }
                    }
                    assert(k == across);
                    let ghost mut j: nat = 0;
                    while self.cursor.y != to.y
                        invariant
                            from == start.pos(),
                            cells == ruled(from, to),
                            across == gap(from.x, to.x),
                            along == gap(from.y, to.y),
                            addressable(cells),
                            j <= along,
                            self.cursor.x == to.x,
                            self.cursor.y == approach(from.y, to.y, j),
                            j == 0 && across == 0 ==> self.cursor == start,
                            j == 0 && across > 0 ==> self.cursor.char == Char::Horizontal,
                            j > 0 ==> self.cursor.char == Char::Vertical,
                            text@ == plots_text(cells.take((across + j) as int)),
                        decreases along - j,
                    {
                        let next: u16 = if self.cursor.y > to.y {
                            self.cursor.y - 1
                        } else {
                            self.cursor.y + 1
                        };
                        self.cursor.update(self.cursor.x, next);
                        proof {
                            let at = (across + j) as int;
                            assert(self.cursor.cell() == cells[at]);
                            assert(cells.take(at + 1).drop_last() =~= cells.take(at));
                            assert(cells.take(at + 1).last() == cells[at]);
                        }
                        self.cursor.plot(&mut text);
                        proof {
                            j = j + 1;
                        }
                    }
                    assert(cells.take((across + along) as int) =~= cells);
                },
                MouseAction::Drag => {},
            },
            Event::Key(_) => {},
        }
        text
    }
}

} // verus!
