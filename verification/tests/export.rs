use shketch::export::{file_name, rasterize, to_file, to_file_as, unify, ExportError};
use shketch::grid::{Cell, CharSet, Point, Segment};
use shketch::path::Tracer;
use shketch::style::Format;

fn segment(cells: &[(u16, u16, char)]) -> Segment {
    let mut s = Segment::new();
    for &(x, y, content) in cells {
        s.add(Cell::new(Point::new(x, y), content));
    }
    s
}

#[test]
fn rasterize_a_single_cell() {
    assert_eq!(rasterize(&segment(&[(5, 5, '#')])), Ok(String::from("#\n")));
}

#[test]
fn rasterize_nothing_is_an_empty_design() {
    assert_eq!(rasterize(&Segment::new()), Err(ExportError::EmptyDesign));
}

#[test]
fn rasterize_pads_with_spaces() {
    let s = segment(&[(10, 20, 'a'), (12, 20, 'b'), (11, 22, 'c')]);
    assert_eq!(rasterize(&s), Ok(String::from("a b\n   \n c \n")));
}

#[test]
fn rasterize_is_relative_to_the_bounding_box() {
    let near = segment(&[(1, 1, 'a'), (2, 2, 'b')]);
    let far = segment(&[(301, 801, 'a'), (302, 802, 'b')]);
    assert_eq!(rasterize(&near), Ok(String::from("a \n b\n")));
    assert_eq!(rasterize(&near), rasterize(&far));
}

#[test]
fn rasterize_shows_the_latest_cell_at_a_position() {
    let s = segment(&[(1, 1, 'a'), (2, 1, 'b'), (1, 1, 'c')]);
    assert_eq!(rasterize(&s), Ok(String::from("cb\n")));
}

#[test]
fn rasterize_keeps_erased_cells_blank() {
    let s = segment(&[(1, 1, 'a'), (2, 1, 'b'), (3, 1, 'c'), (2, 1, ' ')]);
    assert_eq!(rasterize(&s), Ok(String::from("a c\n")));
}

#[test]
fn rasterize_a_traced_line() {
    let line = Tracer::new(CharSet::default()).trace(Point::new(1, 1), Point::new(4, 4));
    assert_eq!(rasterize(&line), Ok(String::from("\\  \n \\ \n  \\\n")));
}

#[test]
fn rasterize_at_the_end_of_the_coordinate_range() {
    let s = segment(&[(65535, 65535, 'z'), (65534, 65535, 'y')]);
    assert_eq!(rasterize(&s), Ok(String::from("yz\n")));
}

#[test]
fn unify_of_nothing_is_empty() {
    assert!(unify(&vec![]).cells.is_empty());
    assert!(unify(&vec![Segment::new(), Segment::new()]).cells.is_empty());
}

#[test]
fn unify_concatenates_oldest_first() {
    let a = segment(&[(1, 1, 'a'), (2, 1, 'b')]);
    let b = segment(&[]);
    let c = segment(&[(1, 1, 'c')]);
    let all = unify(&vec![a, b, c]);
    assert_eq!(all.cells, segment(&[(1, 1, 'a'), (2, 1, 'b'), (1, 1, 'c')]).cells);
    assert_eq!(all.format, Format::default());
    assert_eq!(rasterize(&all), Ok(String::from("cb\n")));
}

#[test]
fn file_name_holds_the_time() {
    assert_eq!(file_name(1699999999999), "shketch-1699999999999.txt");
    assert_eq!(file_name(0), "shketch-0.txt");
    assert_eq!(
        file_name(u128::MAX),
        "shketch-340282366920938463463374607431768211455.txt"
    );
}

#[test]
fn to_file_names_and_fills_the_file() {
    let out = to_file(&segment(&[(5, 5, '#')]), 1699999999999).unwrap();
    assert_eq!(out.file_name, "shketch-1699999999999.txt");
    assert_eq!(out.content, "#\n");
}

#[test]
fn to_file_of_nothing_is_an_empty_design() {
    assert_eq!(to_file(&Segment::new(), 5).unwrap_err(), ExportError::EmptyDesign);
}

#[test]
fn to_file_as_keeps_the_name() {
    let out = to_file_as(&segment(&[(1, 1, 'a'), (3, 1, 'b')]), "my drawing.txt").unwrap();
    assert_eq!(out.file_name, "my drawing.txt");
    assert_eq!(out.content, "a b\n");
}

#[test]
fn to_file_as_of_nothing_is_an_empty_design() {
    assert_eq!(to_file_as(&Segment::new(), "x.txt").unwrap_err(), ExportError::EmptyDesign);
}
