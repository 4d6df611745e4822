use shketch::canvas::{Canvas, Tool, TOOLBAR_BOUNDARY};
use shketch::export::ExportError;
use shketch::grid::{Cell, CharSet, Point, Segment};
use shketch::path::Tracer;
use shketch::style::{Color, Format};
use shketch::terminal::{MouseAction, MouseEvent};

fn canvas() -> Canvas<Tracer> {
    Canvas::new(Tracer::new(CharSet::default()))
}

fn open_canvas() -> Canvas<Tracer> {
    Canvas::with_boundary(Tracer::new(CharSet::default()), 1)
}

fn press(x: u16, y: u16) -> MouseEvent {
    MouseEvent::new(MouseAction::Press, Point::new(x, y))
}

fn drag(x: u16, y: u16) -> MouseEvent {
    MouseEvent::new(MouseAction::Drag, Point::new(x, y))
}

fn release(x: u16, y: u16) -> MouseEvent {
    MouseEvent::new(MouseAction::Release, Point::new(x, y))
}

fn cell(x: u16, y: u16, content: char) -> Cell {
    Cell::new(Point::new(x, y), content)
}

fn committed(canvas: &Canvas<Tracer>) -> Vec<Vec<Cell>> {
    canvas.snapshot().into_iter().map(|segment| segment.cells).collect()
}

#[test]
fn new_canvas_is_blank() {
    let c = canvas();
    assert!(c.base.is_empty());
    assert!(c.sketch.cells.is_empty());
    assert!(c.overlay.cells.is_empty());
    assert_eq!(c.cursor, Point::new(1, 1));
    assert_eq!(c.tool, Tool::Plot);
    assert_eq!(c.boundary, 3);
    assert_eq!(TOOLBAR_BOUNDARY, 3);
}

#[test]
fn press_moves_the_cursor_only() {
    let mut c = canvas();
    assert_eq!(c.update(press(9, 1)), "");
    assert_eq!(c.cursor, Point::new(9, 1));
    assert!(c.sketch.cells.is_empty());
    assert!(c.base.is_empty());
}

#[test]
fn plot_stroke_then_release_then_undo() {
    let mut c = canvas();
    assert_eq!(c.update(press(3, 3)), "");
    assert_eq!(c.update(drag(3, 6)), "");
    assert_eq!(c.sketch.cells, vec![cell(3, 4, '|'), cell(3, 5, '|'), cell(3, 6, '|')]);
    assert_eq!(c.cursor, Point::new(3, 6));
    assert_eq!(c.update(release(3, 6)), "");
    assert!(c.sketch.cells.is_empty());
    assert_eq!(committed(&c), vec![vec![cell(3, 4, '|'), cell(3, 5, '|'), cell(3, 6, '|')]]);
    assert_eq!(c.undo(), "\x1B[4;3H \x1B[5;3H \x1B[6;3H ");
    assert!(c.base.is_empty());
}

#[test]
fn plot_follows_the_pointer() {
    let mut c = canvas();
    c.update(press(3, 3));
    c.update(drag(5, 3));
    c.update(drag(5, 5));
    assert_eq!(
        c.sketch.cells,
        vec![cell(4, 3, '_'), cell(5, 3, '_'), cell(5, 4, '|'), cell(5, 5, '|')]
    );
    assert_eq!(c.cursor, Point::new(5, 5));
}

#[test]
fn line_redraws_from_the_press_point() {
    let mut c = open_canvas();
    c.alt_style(Tool::Line);
    assert_eq!(c.update(press(1, 1)), "");
    assert_eq!(c.update(drag(4, 1)), "");
    assert_eq!(c.sketch.cells, vec![cell(2, 1, '_'), cell(3, 1, '_'), cell(4, 1, '_')]);
    assert_eq!(c.cursor, Point::new(1, 1));
    assert_eq!(c.update(drag(4, 4)), "\x1B[1;2H \x1B[1;3H \x1B[1;4H ");
    assert_eq!(c.sketch.cells, vec![cell(2, 2, '\\'), cell(3, 3, '\\'), cell(4, 4, '\\')]);
    assert_eq!(c.cursor, Point::new(1, 1));
    assert!(c.base.is_empty());
}

#[test]
fn line_first_drag_wipes_nothing() {
    let mut c = canvas();
    c.alt_style(Tool::Line);
    c.update(press(2, 5));
    assert_eq!(c.update(drag(2, 7)), "");
    assert_eq!(c.sketch.cells, vec![cell(2, 6, '|'), cell(2, 7, '|')]);
}

#[test]
fn eraser_adds_one_blank_cell() {
    let mut c = canvas();
    c.alt_style(Tool::Erase);
    c.update(press(3, 3));
    assert_eq!(c.update(drag(8, 9)), "");
    assert_eq!(c.update(drag(9, 9)), "");
    assert_eq!(c.sketch.cells, vec![cell(8, 9, ' '), cell(9, 9, ' ')]);
    assert_eq!(c.cursor, Point::new(3, 3));
}

#[test]
fn drag_inside_the_toolbar_rows_is_ignored() {
    for tool in [Tool::Plot, Tool::Line, Tool::Erase] {
        let mut c = canvas();
        c.alt_style(tool);
        c.update(press(1, 5));
        assert_eq!(c.update(drag(4, 2)), "");
        assert_eq!(c.update(drag(4, 1)), "");
        assert_eq!(c.update(drag(4, 0)), "");
        assert!(c.sketch.cells.is_empty());
        assert_eq!(c.cursor, Point::new(1, 5));
    }
}

#[test]
fn drag_on_the_first_free_row_draws() {
    let mut c = canvas();
    c.update(press(1, 3));
    c.update(drag(3, 3));
    assert_eq!(c.sketch.cells, vec![cell(2, 3, '_'), cell(3, 3, '_')]);
}

#[test]
fn line_drag_into_the_toolbar_rows_keeps_the_stroke() {
    let mut c = canvas();
    c.alt_style(Tool::Line);
    c.update(press(1, 5));
    c.update(drag(3, 5));
    assert_eq!(c.update(drag(3, 1)), "");
    assert_eq!(c.sketch.cells, vec![cell(2, 5, '_'), cell(3, 5, '_')]);
}

#[test]
fn release_commits_even_an_empty_stroke() {
    let mut c = canvas();
    assert_eq!(c.update(release(1, 1)), "");
    assert_eq!(committed(&c), vec![vec![]]);
}

#[test]
fn undo_on_an_empty_canvas_does_nothing() {
    let mut c = canvas();
    c.update(press(3, 3));
    c.update(drag(3, 5));
    assert_eq!(c.undo(), "");
    assert!(c.base.is_empty());
    assert_eq!(c.sketch.cells.len(), 2);
    assert_eq!(c.cursor, Point::new(3, 5));
}

#[test]
fn undo_takes_back_the_latest_stroke_only() {
    let mut c = canvas();
    c.update(press(1, 4));
    c.update(drag(2, 4));
    c.update(release(2, 4));
    c.update(press(7, 7));
    c.update(drag(7, 8));
    c.update(release(7, 8));
    assert_eq!(c.undo(), "\x1B[8;7H ");
    assert_eq!(committed(&c), vec![vec![cell(2, 4, '_')]]);
    assert_eq!(c.undo(), "\x1B[4;2H ");
    assert_eq!(c.undo(), "");
}

#[test]
fn clear_wipes_finished_strokes_then_the_stroke_in_progress() {
    let mut c = canvas();
    c.update(press(1, 4));
    c.update(drag(2, 4));
    c.update(release(2, 4));
    c.update(press(7, 7));
    c.update(drag(7, 8));
    c.update(release(7, 8));
    c.update(press(9, 9));
    c.update(drag(10, 10));
    assert_eq!(c.clear(), "\x1B[4;2H \x1B[8;7H \x1B[10;10H ");
    assert!(c.base.is_empty());
    assert!(c.sketch.cells.is_empty());
    assert_eq!(c.cursor, Point::new(10, 10));
}

#[test]
fn clear_of_nothing_writes_nothing() {
    let mut c = canvas();
    assert_eq!(c.clear(), "");
}

#[test]
fn clear_after_release_leaves_an_empty_design() {
    let mut c = canvas();
    c.update(press(3, 3));
    c.update(drag(3, 6));
    c.update(release(3, 6));
    assert_eq!(c.export(), Ok(String::from("|\n|\n|\n")));
    c.clear();
    assert!(c.base.is_empty());
    assert_eq!(c.export(), Err(ExportError::EmptyDesign));
}

#[test]
fn export_of_a_new_canvas_is_an_empty_design() {
    assert_eq!(canvas().export(), Err(ExportError::EmptyDesign));
}

#[test]
fn export_leaves_out_the_stroke_in_progress_and_the_overlay() {
    let mut c = canvas();
    c.pin(Segment::from_str(Point::new(1, 1), "menu", Format::default()));
    c.update(press(3, 3));
    c.update(drag(5, 3));
    assert_eq!(c.export(), Err(ExportError::EmptyDesign));
    c.update(release(5, 3));
    c.update(press(3, 4));
    c.update(drag(9, 4));
    assert_eq!(c.export(), Ok(String::from("__\n")));
}

#[test]
fn export_lays_later_strokes_over_earlier_ones() {
    let mut c = canvas();
    c.update(press(1, 5));
    c.update(drag(4, 5));
    c.update(release(4, 5));
    c.update(press(3, 4));
    c.update(drag(3, 6));
    c.update(release(3, 6));
    assert_eq!(c.export(), Ok(String::from("_|_\n | \n")));
}

#[test]
fn tool_switch_keeps_the_drawing() {
    let mut c = canvas();
    c.update(press(3, 3));
    c.update(drag(3, 5));
    c.update(release(3, 5));
    c.update(press(4, 4));
    c.update(drag(5, 4));
    c.alt_style(Tool::Line);
    assert_eq!(c.tool, Tool::Line);
    assert_eq!(committed(&c), vec![vec![cell(3, 4, '|'), cell(3, 5, '|')]]);
    assert_eq!(c.sketch.cells, vec![cell(5, 4, '_')]);
    assert_eq!(c.cursor, Point::new(5, 4));
}

#[test]
fn add_appends_a_finished_stroke() {
    let mut c = canvas();
    c.add(Segment::from_str(Point::new(2, 2), "ab", Format::default()));
    c.add(Segment::from_str(Point::new(2, 3), "c", Format::default()));
    assert_eq!(committed(&c), vec![vec![cell(2, 2, 'a'), cell(3, 2, 'b')], vec![cell(2, 3, 'c')]]);
}

#[test]
fn snapshot_copies_the_finished_strokes() {
    let mut c = canvas();
    c.add(Segment::from_str(Point::new(2, 2), "ab", Format::new(Color::Black, Color::Green)));
    let mut copy = c.snapshot();
    assert_eq!(copy.len(), 1);
    assert_eq!(copy[0].format, Format::new(Color::Black, Color::Green));
    copy[0].clear();
    assert_eq!(c.base[0].cells.len(), 2);
}

#[test]
fn draw_of_a_blank_canvas() {
    assert_eq!(canvas().draw(), "\x1B[49m\x1B[39m\x1B[49m\x1B[39m\x1B[49m\x1B[39m\x1B[49m\x1B[39m");
}

#[test]
fn draw_writes_strokes_then_the_stroke_in_progress_then_the_overlay() {
    let plain = "\x1B[49m\x1B[39m";
    let mut c = canvas();
    c.pin(Segment::from_str(Point::new(1, 1), "m", Format::new(Color::White, Color::Black)));
    c.update(press(3, 3));
    c.update(drag(3, 4));
    c.update(release(3, 4));
    c.update(press(5, 5));
    c.update(drag(6, 5));
    let expected = format!(
        "{p}\x1B[4;3H|{p}{p}\x1B[5;6H_{p}\x1B[48;5;15m\x1B[38;5;0m\x1B[1;1Hm{p}",
        p = plain
    );
    assert_eq!(c.draw(), expected);
}

#[test]
fn draw_changes_nothing() {
    let mut c = canvas();
    c.update(press(3, 3));
    c.update(drag(3, 4));
    let first = c.draw();
    assert_eq!(c.draw(), first);
    assert_eq!(c.sketch.cells, vec![cell(3, 4, '|')]);
}

#[test]
fn pin_replaces_the_overlay() {
    let mut c = canvas();
    c.pin(Segment::from_str(Point::new(1, 1), "one", Format::default()));
    c.pin(Segment::from_str(Point::new(1, 1), "x", Format::default()));
    assert_eq!(c.overlay.cells, vec![cell(1, 1, 'x')]);
    c.clear();
    c.undo();
    assert_eq!(c.overlay.cells, vec![cell(1, 1, 'x')]);
}
