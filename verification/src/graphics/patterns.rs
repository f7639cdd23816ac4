//! The line patterns shown on the SSD1306 display: a fan of lines from
//! the top-left corner, and random "disco" lines.
use vstd::prelude::*;
use super::lines::{BinaryColor, Line};

verus! {

/// The pause, in milliseconds, after each line of the fan.
pub const FAN_LINE_DELAY_MS: u32 = 20;

/// The pause, in milliseconds, that a disco line stays on the display.
pub const DISCO_SHOW_MS: u32 = 24;

/// The pause, in milliseconds, after a disco line is cleared.
pub const DISCO_DARK_MS: u32 = 6;

/// The SPI clock of the display, in hertz.
pub const SPI_BAUDRATE_HZ: u32 = 1000000;

/// The lines that start in the top-left corner, are drawn with stroke 1
/// in the on color, and end at the `i`-th point of the fan of a display
/// `width` by `height` pixels: first along the bottom row at every fourth
/// column, then along the right column at every fourth row. Sizes and
/// positions are taken as `i32`, wrapping as `as` does.
pub open spec fn fan_line(width: u32, height: u32, i: int) -> Line {
    let bottom = (width + 3) / 4;
    if i < bottom {
        Line { x1: 0, y1: 0, x2: (4 * i) as i32, y2: ((height as i32) - 1) as i32, stroke: 1, color: BinaryColor::On }
    } else {
        Line { x1: 0, y1: 0, x2: ((width as i32) - 1) as i32, y2: (4 * (i - bottom)) as i32, stroke: 1, color: BinaryColor::On }
    }
}

/// The number of lines of the fan.
pub open spec fn fan_len(width: u32, height: u32) -> int {
    (width + 3) / 4 + (height + 3) / 4
}

/// The lines that the line demo draws, one after the other, on a display
/// of `width` by `height` pixels (see [`fan_line`]). A size of 2^31 reads
/// as `i32::MIN`, which cannot have 1 taken from it, so it is refused
/// where a line would need it.
pub fn draw_lines_plan(width: u32, height: u32) -> (v: Vec<Line>)
    requires
        width > 0 ==> height != 0x8000_0000,
        height > 0 ==> width != 0x8000_0000,
    ensures
        v.len() == fan_len(width, height),
        forall|i: int| 0 <= i < v.len() ==> #[trigger] v[i] == fan_line(width, height, i),
{
    let ghost bottom = (width + 3) / 4;
    let h: i32 = height as i32;
    let w: i32 = width as i32;
    assert(height != 0x8000_0000 ==> h != i32::MIN) by (bit_vector)
        requires h == height as i32;
    assert(width != 0x8000_0000 ==> w != i32::MIN) by (bit_vector)
        requires w == width as i32;
    let mut line = Line::default();
    line.with_color(BinaryColor::On).with_stroke(1);
    let mut v: Vec<Line> = Vec::new();
    let mut x: u64 = 0;
    while x < width as u64
        invariant
            width > 0 ==> h != i32::MIN,
            h == height as i32,
            bottom == (width + 3) / 4,
            x % 4 == 0,
            x <= width + 3,
            v.len() == x / 4,
            x < width ==> v.len() < bottom,
            x >= width ==> v.len() == bottom,
            line.stroke == 1,
            line.color == BinaryColor::On,
            forall|i: int| 0 <= i < v.len() ==> #[trigger] v[i] == fan_line(width, height, i),
        decreases width + 4 - x,
    {
        line.with_xy1(0, 0).with_xy2(x as i32, h - 1);
        v.push(line);
        x = x + 4;
    }
    assert(v.len() == bottom);
    let mut y: u64 = 0;
    while y < height as u64
        invariant
            height > 0 ==> w != i32::MIN,
            w == width as i32,
            bottom == (width + 3) / 4,
            y % 4 == 0,
            y <= height + 3,
            v.len() == bottom + y / 4,
            y >= height ==> v.len() == fan_len(width, height),
            line.stroke == 1,
            line.color == BinaryColor::On,
            forall|i: int| 0 <= i < v.len() ==> #[trigger] v[i] == fan_line(width, height, i),
        decreases height + 4 - y,
    {
        line.with_xy1(0, 0).with_xy2(w - 1, y as i32);
        v.push(line);
        y = y + 4;
    }
    v
}

/// The remainder of `a` divided by `b`, with the sign of `a`, as integer
/// division that rounds toward zero leaves it.
pub open spec fn rem_toward_zero(a: int, b: int) -> int {
    if a >= 0 {
        a % b
    } else {
        -((-a) % b)
    }
}

/// Whether `a % b` has a value: `b` is not 0, and the division is not
/// `i32::MIN` by -1.
pub open spec fn rem_defined(a: i32, b: i32) -> bool {
    b != 0 && !(a == i32::MIN && b == -1)
}

/// A random disco line on a display of `width` by `height` pixels, drawn
/// with stroke 1 in the on color: from the `random` position taken modulo
/// the width (with the sign of `random`), a vertical line from the top
/// row to row `height` when `vertical`; otherwise a horizontal line from
/// column 0 to column `width` at the position taken modulo the height.
pub fn disco_line(vertical: bool, random: i32, width: i32, height: i32) -> (l: Line)
    requires
        vertical ==> rem_defined(random, width),
        !vertical ==> rem_defined(random, height),
    ensures
        vertical ==> l == (Line { x1: rem_toward_zero(random as int, width as int) as i32, y1: 0,
            x2: rem_toward_zero(random as int, width as int) as i32, y2: height, stroke: 1, color: BinaryColor::On }),
        !vertical ==> l == (Line { x1: 0, y1: rem_toward_zero(random as int, height as int) as i32,
            x2: width, y2: rem_toward_zero(random as int, height as int) as i32, stroke: 1, color: BinaryColor::On }),
{
    let mut line = Line::default();
    line.with_color(BinaryColor::On).with_stroke(1);
    if vertical {
        let x = random % width;
        line.with_xy1(x, 0).with_xy2(x, height);
    } else {
        let y = random % height;
        line.with_xy1(0, y).with_xy2(width, y);
    }
    line
}

} // verus!
