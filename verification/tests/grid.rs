use shketch::grid::{clear_cell, clear_segment, Cell, Erase, Point, Segment};
use shketch::style::{Color, Format};

fn cell(x: u16, y: u16, content: char) -> Cell {
    Cell::new(Point::new(x, y), content)
}

#[test]
fn point_new_and_getters() {
    let p = Point::new(3, 9);
    assert_eq!(p.x(), 3);
    assert_eq!(p.y(), 9);
    assert_eq!(p, Point { x: 3, y: 9 });
}

#[test]
fn point_default_is_the_top_left_corner() {
    assert_eq!(Point::default(), Point::new(1, 1));
}

#[test]
fn point_from_a_pair() {
    let p: Point = (4, 7).into();
    assert_eq!(p, Point::new(4, 7));
}

#[test]
fn point_moves_in_place() {
    let mut p = Point::new(5, 5);
    p.move_up();
    assert_eq!(p, Point::new(5, 4));
    p.move_left();
    assert_eq!(p, Point::new(4, 4));
    p.move_down();
    p.move_down();
    assert_eq!(p, Point::new(4, 6));
    p.move_right();
    assert_eq!(p, Point::new(5, 6));
    p.move_to(40, 2);
    assert_eq!(p, Point::new(40, 2));
}

#[test]
fn point_steps_by_value() {
    let p = Point::new(5, 5);
    assert_eq!(p.up(), Point::new(5, 4));
    assert_eq!(p.down(), Point::new(5, 6));
    assert_eq!(p.left(), Point::new(4, 5));
    assert_eq!(p.right(), Point::new(6, 5));
    assert_eq!(p, Point::new(5, 5));
}

#[test]
fn point_steps_reach_the_ends_of_the_range() {
    assert_eq!(Point::new(1, 1).up(), Point::new(1, 0));
    assert_eq!(Point::new(1, 1).left(), Point::new(0, 1));
    assert_eq!(Point::new(65534, 65534).down(), Point::new(65534, 65535));
    assert_eq!(Point::new(65534, 65534).right(), Point::new(65535, 65534));
}

#[test]
fn cell_new_and_getters() {
    let c = cell(2, 3, 'x');
    assert_eq!(*c.pos(), Point::new(2, 3));
    assert_eq!(c.content(), 'x');
    assert_eq!(Cell::default(), cell(1, 1, '\0'));
}

#[test]
fn cell_render_addresses_row_then_column() {
    assert_eq!(cell(3, 5, 'x').render(), "\x1B[5;3Hx");
    assert_eq!(cell(120, 7, '|').render(), "\x1B[7;120H|");
    assert_eq!(cell(0, 65535, 'é').render(), "\x1B[65535;0Hé");
}

#[test]
fn cell_erase_blanks_and_overwrites() {
    let mut c = cell(3, 5, 'x');
    assert_eq!(c.erase(), "\x1B[5;3H ");
    assert_eq!(c, cell(3, 5, ' '));
}

#[test]
fn segment_new_is_empty_and_plain() {
    let s = Segment::new();
    assert!(s.cells.is_empty());
    assert_eq!(s.format, Format::default());
    let d = Segment::default();
    assert!(d.cells.is_empty());
    assert_eq!(d.format, Format::new(Color::Reset, Color::Reset));
}

#[test]
fn segment_add_keeps_order() {
    let mut s = Segment::new();
    s.add(cell(1, 1, 'a'));
    s.add(cell(9, 9, 'b'));
    s.add(cell(1, 1, 'c'));
    assert_eq!(s.cells, vec![cell(1, 1, 'a'), cell(9, 9, 'b'), cell(1, 1, 'c')]);
}

#[test]
fn segment_clear_keeps_the_format() {
    let format = Format::new(Color::White, Color::Black);
    let mut s = Segment::from_str(Point::new(1, 1), "abc", format);
    s.clear();
    assert!(s.cells.is_empty());
    assert_eq!(s.format, format);
}

#[test]
fn segment_from_str_runs_to_the_right() {
    let s = Segment::from_str(Point::new(15, 2), "Hi!", Format::default());
    assert_eq!(s.cells, vec![cell(15, 2, 'H'), cell(16, 2, 'i'), cell(17, 2, '!')]);
}

#[test]
fn segment_from_str_takes_one_cell_for_each_byte() {
    let s = Segment::from_str(Point::new(1, 1), "é", Format::default());
    assert_eq!(s.cells, vec![cell(1, 1, '\u{c3}'), cell(2, 1, '\u{a9}')]);
}

#[test]
fn segment_from_str_of_nothing() {
    let s = Segment::from_str(Point::new(65535, 1), "", Format::default());
    assert!(s.cells.is_empty());
}

#[test]
fn segment_from_str_up_to_the_last_column() {
    let s = Segment::from_str(Point::new(65534, 1), "ab", Format::default());
    assert_eq!(s.cells, vec![cell(65534, 1, 'a'), cell(65535, 1, 'b')]);
}

#[test]
fn segment_set_format() {
    let mut s = Segment::from_str(Point::new(1, 1), "ab", Format::default());
    let format = Format::new(Color::Black, Color::Green);
    s.set_format(format);
    assert_eq!(s.format, format);
    assert_eq!(s.cells.len(), 2);
}

#[test]
fn segment_append_concatenates() {
    let mut a = Segment::from_str(Point::new(1, 1), "ab", Format::new(Color::White, Color::Black));
    let b = Segment::from_str(Point::new(1, 2), "cd", Format::default());
    a.append(&b);
    assert_eq!(a.cells, vec![cell(1, 1, 'a'), cell(2, 1, 'b'), cell(1, 2, 'c'), cell(2, 2, 'd')]);
    assert_eq!(a.format, Format::new(Color::White, Color::Black));
    assert_eq!(b.cells.len(), 2);
}

#[test]
fn segment_clone_is_equal() {
    let a = Segment::from_str(Point::new(3, 4), "xyz", Format::new(Color::Black, Color::Green));
    let b = a.clone();
    assert_eq!(a.cells, b.cells);
    assert_eq!(a.format, b.format);
}

#[test]
fn boundaries_of_nothing() {
    assert_eq!(Segment::new().boundaries(), None);
}

#[test]
fn boundaries_of_one_cell() {
    let mut s = Segment::new();
    s.add(cell(5, 5, 'x'));
    assert_eq!(s.boundaries(), Some((Point::new(5, 5), Point::new(5, 5))));
}

#[test]
fn boundaries_span_all_cells() {
    let mut s = Segment::new();
    s.add(cell(5, 9, 'a'));
    s.add(cell(2, 12, 'b'));
    s.add(cell(8, 3, 'c'));
    s.add(cell(4, 4, 'd'));
    assert_eq!(s.boundaries(), Some((Point::new(2, 3), Point::new(8, 12))));
}

#[test]
fn boundaries_at_the_ends_of_the_range() {
    let mut s = Segment::new();
    s.add(cell(65535, 0, 'a'));
    s.add(cell(0, 65535, 'b'));
    assert_eq!(s.boundaries(), Some((Point::new(0, 0), Point::new(65535, 65535))));
}

#[test]
fn segment_render_wraps_cells_in_its_format() {
    let s = Segment::from_str(Point::new(1, 2), "ab", Format::new(Color::White, Color::Black));
    assert_eq!(
        s.render(),
        "\x1B[48;5;15m\x1B[38;5;0m\x1B[2;1Ha\x1B[2;2Hb\x1B[49m\x1B[39m"
    );
}

#[test]
fn segment_render_of_nothing_is_only_the_formats() {
    assert_eq!(Segment::new().render(), "\x1B[49m\x1B[39m\x1B[49m\x1B[39m");
}

#[test]
fn segment_render_into_appends() {
    let mut text = String::from("abc");
    Segment::from_str(Point::new(7, 7), "x", Format::default()).render_into(&mut text);
    assert_eq!(text, "abc\x1B[49m\x1B[39m\x1B[7;7Hx\x1B[49m\x1B[39m");
}

#[test]
fn segment_erase_blanks_every_cell() {
    let mut s = Segment::from_str(Point::new(3, 4), "ab", Format::new(Color::White, Color::Black));
    assert_eq!(s.erase(), "\x1B[4;3H \x1B[4;4H ");
    assert_eq!(s.cells, vec![cell(3, 4, ' '), cell(4, 4, ' ')]);
    assert_eq!(s.format, Format::new(Color::White, Color::Black));
}

#[test]
fn segment_erase_of_nothing_writes_nothing() {
    let mut s = Segment::new();
    assert_eq!(s.erase(), "");
}

#[test]
fn segment_wipe_into_leaves_the_segment() {
    let s = Segment::from_str(Point::new(3, 4), "ab", Format::default());
    let mut text = String::new();
    s.wipe_into(&mut text);
    assert_eq!(text, "\x1B[4;3H \x1B[4;4H ");
    assert_eq!(s.cells, vec![cell(3, 4, 'a'), cell(4, 4, 'b')]);
}

#[test]
fn clear_cell_overwrites_with_a_space() {
    assert_eq!(clear_cell(cell(12, 7, '#')), "\x1B[7;12H ");
}

#[test]
fn clear_segment_overwrites_every_cell() {
    let s = Segment::from_str(Point::new(9, 2), "abc", Format::new(Color::White, Color::Black));
    assert_eq!(clear_segment(s), "\x1B[2;9H \x1B[2;10H \x1B[2;11H ");
    assert_eq!(clear_segment(Segment::new()), "");
}
