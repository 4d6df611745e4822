//! Export of a drawing as plain text: the strokes are laid over one another
//! and the smallest rectangle that holds them is written out row by row.

use vstd::prelude::*;
use crate::ansi::{decimal, push_decimal};
use crate::grid::{bounds, Cell, Point, Segment};
use crate::style::plain;

verus! {

/// Why a drawing could not be exported.
#[derive(Debug, Copy, Clone, PartialEq, Eq, Structural)]
pub enum ExportError {
    /// Nothing has been drawn yet.
    EmptyDesign,
}

/// A file to be written: its name and its whole content.
#[derive(Debug)]
pub struct Export {
    pub file_name: String,
    pub content: String,
}

/// The cells of several strokes in one run, oldest stroke first.
pub open spec fn joined(strokes: Seq<Seq<Cell>>) -> Seq<Cell>
    decreases strokes.len(),
{
    if strokes.len() == 0 {
        Seq::empty()
    } else {
        joined(strokes.drop_last()) + strokes.last()
    }
}

/// The cells of each segment.
pub open spec fn strokes_of(segments: Seq<Segment>) -> Seq<Seq<Cell>> {
    Seq::new(segments.len(), |i: int| segments[i]@)
}

/// The glyph shown at `p`: that of the latest cell at this position, or a
/// space where there is none.
pub open spec fn glyph_at(cells: Seq<Cell>, p: Point) -> char
    decreases cells.len(),
{
    if cells.len() == 0 {
        ' '
    } else if cells.last().pos == p {
        cells.last().content
    } else {
        glyph_at(cells.drop_last(), p)
    }
}

/// One row of the picture, from column `from` to column `to`, closed by a
/// newline.
pub open spec fn row_text(cells: Seq<Cell>, y: u16, from: u16, to: u16) -> Seq<char> {
    Seq::new((to - from + 1) as nat, |i: int| glyph_at(cells, Point { x: (from + i) as u16, y })).push(
        '\n',
    )
}

/// The first `rows` rows of the rectangle between `low` and `high`.
pub open spec fn rows_text(cells: Seq<Cell>, low: Point, high: Point, rows: nat) -> Seq<char>
    decreases rows,
{
    if rows == 0 {
        Seq::empty()
    } else {
        rows_text(cells, low, high, (rows - 1) as nat) + row_text(
            cells,
            (low.y + rows - 1) as u16,
            low.x,
            high.x,
        )
    }
}

/// The picture as text: every row of the smallest rectangle that holds the
/// cells, top row first. Positions are relative to that rectangle.
pub open spec fn raster(cells: Seq<Cell>) -> Seq<char>
    recommends
        cells.len() > 0,
{
    let (low, high) = bounds(cells);
    rows_text(cells, low, high, (high.y - low.y + 1) as nat)
}

/// The name of a file saved at `millis` milliseconds of Unix time.
pub open spec fn timestamped(millis: u128) -> Seq<char> {
    seq!['s', 'h', 'k', 'e', 't', 'c', 'h', '-'] + decimal(millis as nat) + seq!['.', 't', 'x', 't']
}

/// Lays the segments over one another: one segment with the cells of all,
/// oldest first, so that a later stroke covers an earlier one.
pub fn unify(segments: &Vec<Segment>) -> (out: Segment)
    ensures
        out@ == joined(strokes_of(segments@)),
        out.format == plain(),
{
    let mut result = Segment::new();
    let n = segments.len();
    let mut i: usize = 0;
    while i < n
        invariant
            n == segments@.len(),
            i <= n,
            result@ == joined(strokes_of(segments@).take(i as int)),
            result.format == plain(),
        decreases n - i,
    {
        result.append(&segments[i]);
        proof {
            let all = strokes_of(segments@);
            assert(all.take(i + 1).drop_last() =~= all.take(i as int));
            assert(all.take(i + 1).last() == segments@[i as int]@);
        }
        i = i + 1;
    }
    assert(strokes_of(segments@).take(n as int) =~= strokes_of(segments@));
    result
}

/// The glyph shown at `p`.
fn glyph_of(cells: &Vec<Cell>, p: Point) -> (out: char)
    ensures
        out == glyph_at(cells@, p),
{
    let mut i: usize = cells.len();
    assert(cells@.take(i as int) =~= cells@);
    while i > 0
        invariant
            i <= cells@.len(),
            glyph_at(cells@, p) == glyph_at(cells@.take(i as int), p),
        decreases i,
    {
        i = i - 1;
        proof {
            let upto = cells@.take(i + 1);
            assert(upto.last() == cells@[i as int]);
            assert(upto.drop_last() =~= cells@.take(i as int));
        }
        if cells[i].pos == p {
            return cells[i].content;
        }
    }
    ' '
}

/// Writes the picture out as text, or reports that there is none.
pub fn rasterize(segment: &Segment) -> (out: Result<String, ExportError>)
    ensures
        segment@.len() == 0 <==> out.is_err(),
        out.is_err() ==> out == Err::<String, ExportError>(ExportError::EmptyDesign),
        out.is_ok() ==> out.unwrap()@ == raster(segment@),
{
    let (low, high) = match segment.boundaries() {
        None => {
            return Err(ExportError::EmptyDesign);
        },
        Some(corners) => corners,
    };
    proof {
        crate::grid::lemma_bounds_span(segment@);
    }
    let ghost cells = segment@;
    let mut output = String::new();
    let rows: u32 = (high.y - low.y) as u32 + 1;
    let columns: u32 = (high.x - low.x) as u32 + 1;
    let mut r: u32 = 0;
    while r < rows
        invariant
            cells == segment@,
            low.x <= high.x,
            low.y <= high.y,
            rows == high.y - low.y + 1,
            columns == high.x - low.x + 1,
            r <= rows,
            output@ == rows_text(cells, low, high, r as nat),
        decreases rows - r,
    {
        let y: u16 = (low.y as u32 + r) as u16;
        let ghost before = output@;
        let mut c: u32 = 0;
        while c < columns
            invariant
                cells == segment@,
                columns == high.x - low.x + 1,
                c <= columns,
                output@ == before + Seq::new(
                    c as nat,
                    |i: int| glyph_at(cells, Point { x: (low.x + i) as u16, y }),
                ),
            decreases columns - c,
        {
            let x: u16 = (low.x as u32 + c) as u16;
            let glyph = glyph_of(&segment.cells, Point { x, y });
            output.push(glyph);
            assert(output@ =~= before + Seq::new(
                (c + 1) as nat,
                |i: int| glyph_at(cells, Point { x: (low.x + i) as u16, y }),
            ));
            c = c + 1;
        }
        output.push('\n');
        assert(output@ =~= rows_text(cells, low, high, r as nat) + row_text(cells, y, low.x, high.x));
        r = r + 1;
    }
    Ok(output)
}

/// The name of a file saved at `millis` milliseconds of Unix time.
pub fn file_name(millis: u128) -> (out: String)
    ensures
        out@ == timestamped(millis),
{
    let mut name = String::new();
    name.push('s');
    name.push('h');
    name.push('k');
    name.push('e');
    name.push('t');
    name.push('c');
    name.push('h');
    name.push('-');
    push_decimal(&mut name, millis);
    name.push('.');
    name.push('t');
    name.push('x');
    name.push('t');
    assert(name@ =~= timestamped(millis));
    name
}

/// The file that saves `blueprint` under a name made from the time of
/// saving, `millis` milliseconds of Unix time; nothing is to be written
/// for an empty drawing.
pub fn to_file(blueprint: &Segment, millis: u128) -> (out: Result<Export, ExportError>)
    ensures
        blueprint@.len() == 0 <==> out.is_err(),
        out.is_err() ==> out.unwrap_err() == ExportError::EmptyDesign,
        out.is_ok() ==> out.unwrap().file_name@ == timestamped(millis) && out.unwrap().content@
            == raster(blueprint@),
{
    match rasterize(blueprint) {
        Ok(content) => Ok(Export { file_name: file_name(millis), content }),
        Err(e) => Err(e),
    }
}

/// The file that saves `blueprint` under a given name; nothing is to be
/// written for an empty drawing.
pub fn to_file_as(blueprint: &Segment, file_name: &str) -> (out: Result<Export, ExportError>)
    ensures
        blueprint@.len() == 0 <==> out.is_err(),
        out.is_err() ==> out.unwrap_err() == ExportError::EmptyDesign,
        out.is_ok() ==> out.unwrap().file_name@ == file_name@ && out.unwrap().content@ == raster(
            blueprint@,
        ),
{
    match rasterize(blueprint) {
        Ok(content) => Ok(Export { file_name: file_name.to_owned(), content }),
        Err(e) => Err(e),
    }
}

/// A picture of a single cell is its glyph on a row of its own.
pub proof fn lemma_raster_single(cell: Cell)
    ensures
        raster(seq![cell]) == seq![cell.content, '\n'],
{
    let cells = seq![cell];
    let p = cell.pos;
    assert(bounds(cells) == (p, p));
    assert(rows_text(cells, p, p, 0) =~= Seq::<char>::empty());
    assert(glyph_at(cells, p) == cell.content);
    assert(row_text(cells, p.y, p.x, p.x) =~= seq![cell.content, '\n']);
    assert(rows_text(cells, p, p, 1) =~= seq![cell.content, '\n']) by {
        reveal_with_fuel(rows_text, 2);
    }
}

/// A timestamped file name is plain ASCII and short.
pub proof fn lemma_timestamped_ascii(millis: u128)
    ensures
        vstd::utf8::is_ascii_chars(timestamped(millis)),
        timestamped(millis).len() <= 51,
{
    crate::ansi::lemma_decimal_digits(millis as nat);
    crate::ansi::lemma_decimal_len_u128(millis);
    let head = seq!['s', 'h', 'k', 'e', 't', 'c', 'h', '-'];
    let number = decimal(millis as nat);
    let tail = seq!['.', 't', 'x', 't'];
    let name = timestamped(millis);
    assert forall|i: int| 0 <= i < name.len() implies '\0' <= #[trigger] name[i] <= '\u{7f}' by {
        if i < 8 {
            assert(name[i] == head[i]);
        } else if i < 8 + number.len() {
            assert(name[i] == number[i - 8]);
        } else {
            assert(name[i] == tail[i - 8 - number.len()]);
        }
    }
}

/// Where no cell lies on `p`, a space is shown there.
pub proof fn lemma_glyph_at_free(cells: Seq<Cell>, p: Point)
    requires
        forall|i: int| 0 <= i < cells.len() ==> (#[trigger] cells[i]).pos != p,
    ensures
        glyph_at(cells, p) == ' ',
    decreases cells.len(),
{
    if cells.len() > 0 {
        let rest = cells.drop_last();
        assert forall|i: int| 0 <= i < rest.len() implies (#[trigger] rest[i]).pos != p by {
            assert(rest[i] == cells[i]);
        }
        lemma_glyph_at_free(rest, p);
    }
}

/// The latest cell on a position is the one that shows: a later stroke
/// covers an earlier one.
pub proof fn lemma_glyph_at_latest(cells: Seq<Cell>, p: Point, latest: int)
    requires
        0 <= latest < cells.len(),
        cells[latest].pos == p,
        forall|i: int| latest < i < cells.len() ==> (#[trigger] cells[i]).pos != p,
    ensures
        glyph_at(cells, p) == cells[latest].content,
    decreases cells.len(),
{
    if latest < cells.len() - 1 {
        let rest = cells.drop_last();
        assert(rest[latest] == cells[latest]);
        assert forall|i: int| latest < i < rest.len() implies (#[trigger] rest[i]).pos != p by {
            assert(rest[i] == cells[i]);
        }
        lemma_glyph_at_latest(rest, p, latest);
    }
}

/// The first rows of a picture, position by position: each row is as wide
/// as the rectangle and closed by a newline, and the glyph at a row and a
/// column is the one shown at that place of the rectangle.
pub proof fn lemma_rows_text_at(cells: Seq<Cell>, low: Point, high: Point, rows: nat)
    requires
        low.x <= high.x,
        low.y + rows <= 0x10000,
    ensures
        rows_text(cells, low, high, rows).len() == rows * (high.x - low.x + 2),
        forall|row: int, column: int|
            0 <= row < rows && 0 <= column <= high.x - low.x + 1 ==> #[trigger] rows_text(
                cells,
                low,
                high,
                rows,
            )[row * (high.x - low.x + 2) + column] == if column == high.x - low.x + 1 {
                '\n'
            } else {
                glyph_at(cells, Point { x: (low.x + column) as u16, y: (low.y + row) as u16 })
            },
    decreases rows,
{
    let width = high.x - low.x + 2;
    if rows > 0 {
        let before = (rows - 1) as nat;
        lemma_rows_text_at(cells, low, high, before);
        let head = rows_text(cells, low, high, before);
        let last = row_text(cells, (low.y + rows - 1) as u16, low.x, high.x);
        assert(rows * width == before * width + width) by (nonlinear_arith)
            requires
                rows == before + 1,
        ;
        assert(rows_text(cells, low, high, rows) == head + last);
        assert forall|row: int, column: int| 0 <= row < rows && 0 <= column <= width - 1 implies (
        #[trigger] rows_text(cells, low, high, rows)[row * width + column]) == if column == width
            - 1 {
            '\n'
        } else {
            glyph_at(cells, Point { x: (low.x + column) as u16, y: (low.y + row) as u16 })
        } by {
            if row < before {
                assert(row * width + column < before * width) by (nonlinear_arith)
                    requires
                        0 <= row < before,
                        0 <= column < width,
                ;
                assert(0 <= row * width + column) by (nonlinear_arith)
                    requires
                        0 <= row,
                        0 <= column,
                        0 <= width,
                ;
                assert((head + last)[row * width + column] == head[row * width + column]);
            } else {
                assert(row * width == before * width);
                assert((head + last)[before * width + column] == last[column]);
            }
        }
    } else {
        assert(rows * width == 0) by (nonlinear_arith)
            requires
                rows == 0,
        ;
    }
}

/// A picture has one line of text for each row of the smallest rectangle
/// that holds its cells. Each line is as wide as the rectangle and closed
/// by a newline; it shows, column by column, the latest glyph drawn at
/// that place, or a space.
pub proof fn lemma_raster_at(cells: Seq<Cell>, row: int, column: int)
    requires
        cells.len() > 0,
        0 <= row <= bounds(cells).1.y - bounds(cells).0.y,
        0 <= column <= bounds(cells).1.x - bounds(cells).0.x + 1,
    ensures
        raster(cells).len() == (bounds(cells).1.y - bounds(cells).0.y + 1) * (bounds(cells).1.x
            - bounds(cells).0.x + 2),
        raster(cells)[row * (bounds(cells).1.x - bounds(cells).0.x + 2) + column] == if column
            == bounds(cells).1.x - bounds(cells).0.x + 1 {
            '\n'
        } else {
            glyph_at(
                cells,
                Point {
                    x: (bounds(cells).0.x + column) as u16,
                    y: (bounds(cells).0.y + row) as u16,
                },
            )
        },
{
    crate::grid::lemma_bounds_span(cells);
    let (low, high) = bounds(cells);
    lemma_rows_text_at(cells, low, high, (high.y - low.y + 1) as nat);
}

} // verus!
