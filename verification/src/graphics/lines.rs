//! A line on a monochrome display, built step by step.
use vstd::prelude::*;

verus! {

/// A point of the display, in pixels.
#[derive(Debug, Clone, Copy, PartialEq, Eq, Structural)]
pub struct Point {
    pub x: i32,
    pub y: i32,
}

/// The color of a pixel on a monochrome display.
#[derive(Debug, Clone, Copy, PartialEq, Eq, Structural)]
pub enum BinaryColor {
    Off,
    On,
}

impl Default for BinaryColor {
    /// A pixel is off unless set.
    fn default() -> (c: Self)
        ensures
            c == BinaryColor::Off,
    {
        BinaryColor::Off
    }
}

/// A line from `(x1, y1)` to `(x2, y2)`, drawn with a stroke width and a color.
#[derive(Debug, Clone, Copy, PartialEq, Eq, Structural)]
pub struct Line {
    pub x1: i32,
    pub y1: i32,
    pub x2: i32,
    pub y2: i32,
    pub stroke: u32,
    pub color: BinaryColor,
}

impl Default for Line {
    /// The line with every coordinate 0, no stroke, and pixels off.
    fn default() -> (l: Self)
        ensures
            l == (Line { x1: 0, y1: 0, x2: 0, y2: 0, stroke: 0, color: BinaryColor::Off }),
    {
        Line { x1: 0, y1: 0, x2: 0, y2: 0, stroke: 0, color: BinaryColor::Off }
    }
}

impl Line {
    /// The start of the line.
    pub fn point1(&self) -> (p: Point)
        ensures
            p == (Point { x: self.x1, y: self.y1 }),
    {
        Point { x: self.x1, y: self.y1 }
    }

    /// The end of the line.
    pub fn point2(&self) -> (p: Point)
        ensures
            p == (Point { x: self.x2, y: self.y2 }),
    {
        Point { x: self.x2, y: self.y2 }
    }

    /// Sets the color; returns the line for further changes.
    pub fn with_color(&mut self, color: BinaryColor) -> (r: &mut Self)
        ensures
            *r == (Line { color, ..*old(self) }),
            *final(self) == *final(r),
    {
        self.color = color;
        self
    }

    /// Sets the stroke width; returns the line for further changes.
    pub fn with_stroke(&mut self, stroke: u32) -> (r: &mut Self)
        ensures
            *r == (Line { stroke, ..*old(self) }),
            *final(self) == *final(r),
    {
        self.stroke = stroke;
        self
    }

    /// Sets the start; returns the line for further changes.
    pub fn with_point1(&mut self, point: Point) -> (r: &mut Self)
        ensures
            *r == (Line { x1: point.x, y1: point.y, ..*old(self) }),
            *final(self) == *final(r),
    {
        self.x1 = point.x;
        self.y1 = point.y;
        self
    }

    /// Sets the end; returns the line for further changes.
    pub fn with_point2(&mut self, point: Point) -> (r: &mut Self)
        ensures
            *r == (Line { x2: point.x, y2: point.y, ..*old(self) }),
            *final(self) == *final(r),
    {
        self.x2 = point.x;
        self.y2 = point.y;
        self
    }

    /// Sets the start from its coordinates; returns the line for further changes.
    pub fn with_xy1(&mut self, x: i32, y: i32) -> (r: &mut Self)
        ensures
            *r == (Line { x1: x, y1: y, ..*old(self) }),
            *final(self) == *final(r),
    {
        self.x1 = x;
        self.y1 = y;
        self
    }

    /// Sets the end from its coordinates; returns the line for further changes.
    pub fn with_xy2(&mut self, x: i32, y: i32) -> (r: &mut Self)
        ensures
            *r == (Line { x2: x, y2: y, ..*old(self) }),
            *final(self) == *final(r),
    {
        self.x2 = x;
        self.y2 = y;
        self
    }
}

/// A line through two points, with no stroke and pixels off.
pub open spec fn line_between(p1: Point, p2: Point) -> Line {
    Line { x1: p1.x, y1: p1.y, x2: p2.x, y2: p2.y, stroke: 0, color: BinaryColor::Off }
}

impl From<(Point, Point)> for Line {
    fn from(value: (Point, Point)) -> (l: Self) {
        Line { x1: value.0.x, y1: value.0.y, x2: value.1.x, y2: value.1.y, stroke: 0, color: BinaryColor::Off }
    }
}

impl vstd::std_specs::convert::FromSpecImpl<(Point, Point)> for Line {
    open spec fn obeys_from_spec() -> bool {
        true
    }

    open spec fn from_spec(value: (Point, Point)) -> Line {
        line_between(value.0, value.1)
    }
}

impl From<(i32, i32, i32, i32)> for Line {
    fn from(value: (i32, i32, i32, i32)) -> (l: Self) {
        Line { x1: value.0, y1: value.1, x2: value.2, y2: value.3, stroke: 0, color: BinaryColor::Off }
    }
}

impl vstd::std_specs::convert::FromSpecImpl<(i32, i32, i32, i32)> for Line {
    open spec fn obeys_from_spec() -> bool {
        true
    }

    open spec fn from_spec(value: (i32, i32, i32, i32)) -> Line {
        line_between(Point { x: value.0, y: value.1 }, Point { x: value.2, y: value.3 })
    }
}

/// Setting the start and then the end of a line keeps its stroke and
/// color and makes it the line between the two points; the two points
/// read back as given.
pub proof fn lemma_endpoints_read_back(l: Line, p1: Point, p2: Point)
    ensures
        ({
            let m = Line { x2: p2.x, y2: p2.y, ..Line { x1: p1.x, y1: p1.y, ..l } };
            &&& m == Line { stroke: l.stroke, color: l.color, ..line_between(p1, p2) }
            &&& (Point { x: m.x1, y: m.y1 }) == p1
            &&& (Point { x: m.x2, y: m.y2 }) == p2
        }),
{
}

} // verus!
