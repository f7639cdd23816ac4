use esp_playground::graphics::lines::{BinaryColor, Line, Point};
use esp_playground::graphics::patterns::{disco_line, draw_lines_plan};

fn line(x1: i32, y1: i32, x2: i32, y2: i32, stroke: u32, color: BinaryColor) -> Line {
    Line { x1, y1, x2, y2, stroke, color }
}

#[test]
fn default_line() {
    assert_eq!(Line::default(), line(0, 0, 0, 0, 0, BinaryColor::Off));
    assert_eq!(BinaryColor::default(), BinaryColor::Off);
}

#[test]
fn builders_chain() {
    let mut l = Line::default();
    l.with_color(BinaryColor::On).with_stroke(3).with_xy1(1, 2).with_xy2(3, 4);
    assert_eq!(l, line(1, 2, 3, 4, 3, BinaryColor::On));
    l.with_point1(Point { x: -5, y: 6 }).with_point2(Point { x: 7, y: -8 });
    assert_eq!(l, line(-5, 6, 7, -8, 3, BinaryColor::On));
    assert_eq!(l.point1(), Point { x: -5, y: 6 });
    assert_eq!(l.point2(), Point { x: 7, y: -8 });
}

#[test]
fn lines_from_tuples() {
    let a: Line = (Point { x: 1, y: 2 }, Point { x: 3, y: 4 }).into();
    assert_eq!(a, line(1, 2, 3, 4, 0, BinaryColor::Off));
    let b = Line::from((9, 8, 7, 6));
    assert_eq!(b, line(9, 8, 7, 6, 0, BinaryColor::Off));
}

#[test]
fn fan_of_lines() {
    let on = BinaryColor::On;
    assert_eq!(
        draw_lines_plan(10, 6),
        vec![
            line(0, 0, 0, 5, 1, on),
            line(0, 0, 4, 5, 1, on),
            line(0, 0, 8, 5, 1, on),
            line(0, 0, 9, 0, 1, on),
            line(0, 0, 9, 4, 1, on),
        ]
    );
    assert_eq!(draw_lines_plan(0, 0), vec![]);
    let big = draw_lines_plan(128, 64);
    assert_eq!(big.len(), 32 + 16);
    assert_eq!(big[31], line(0, 0, 124, 63, 1, on));
    assert_eq!(big[47], line(0, 0, 127, 60, 1, on));
    assert_eq!(draw_lines_plan(1, 0), vec![line(0, 0, 0, -1, 1, on)]);
    assert_eq!(draw_lines_plan(0, 5), vec![line(0, 0, -1, 0, 1, on), line(0, 0, -1, 4, 1, on)]);
}

#[test]
fn disco_lines() {
    let on = BinaryColor::On;
    assert_eq!(disco_line(true, -7, 5, 3), line(-2, 0, -2, 3, 1, on));
    assert_eq!(disco_line(true, 300, 128, 64), line(44, 0, 44, 64, 1, on));
    assert_eq!(disco_line(false, 13, 128, 64), line(0, 13, 128, 13, 1, on));
    assert_eq!(disco_line(false, i32::MIN, 128, 64), line(0, 0, 128, 0, 1, on));
    assert_eq!(disco_line(true, 7, -3, 0), line(1, 0, 1, 0, 1, on));
    assert_eq!(disco_line(false, -7, 0, -3), line(0, -1, 0, -1, 1, on));
    assert_eq!(disco_line(true, 5, 1, 0), line(0, 0, 0, 0, 1, on));
}
