//! Lengths, points, rectangles and colours.
//!
//! Every drawn length is a whole number of half units: the centre of a target
//! of odd size lies on a half unit and the grid is stroked half a unit wide,
//! so no length of a frame needs a fraction.

use vstd::prelude::*;

verus! {

/// The number of half units in one unit.
pub const HALF_UNITS: i64 = 2;

/// A position on the render target, in half units from its top left corner.
#[derive(Clone, Copy, PartialEq, Eq, Debug)]
pub struct Point {
    pub x: i64,
    pub y: i64,
}

/// An axis-parallel rectangle on the render target, in half units.
#[derive(Clone, Copy, PartialEq, Eq, Debug)]
pub struct Rect {
    pub left: i64,
    pub top: i64,
    pub right: i64,
    pub bottom: i64,
}

/// The square with the given half extent, in units, around the centre of a
/// target of the given size, in units. The centre lies at half the width and
/// half the height: at `width` and `height` half units.
pub open spec fn centered_square(width: u32, height: u32, half_extent: int) -> Rect {
    Rect {
        left: (width - HALF_UNITS * half_extent) as i64,
        top: (height - HALF_UNITS * half_extent) as i64,
        right: (width + HALF_UNITS * half_extent) as i64,
        bottom: (height + HALF_UNITS * half_extent) as i64,
    }
}

impl Rect {
    /// Twice the horizontal position of the centre.
    pub open spec fn center_x_doubled(self) -> int {
        self.left + self.right
    }

    /// Twice the vertical position of the centre.
    pub open spec fn center_y_doubled(self) -> int {
        self.top + self.bottom
    }

    /// Builds the square with the given half extent, in units, around the
    /// centre of a target of the given size, in units.
    pub fn centered(width: u32, height: u32, half_extent: u16) -> (rect: Rect)
        ensures
            rect == centered_square(width, height, half_extent as int),
    {
        let reach: i64 = HALF_UNITS * (half_extent as i64);
        let cx: i64 = width as i64;
        let cy: i64 = height as i64;
        Rect { left: cx - reach, top: cy - reach, right: cx + reach, bottom: cy + reach }
    }
}

/// The colours that a frame uses.
#[derive(Clone, Copy, PartialEq, Eq, Debug)]
pub enum Color {
    /// The background.
    White,
    /// The grid and the filled square.
    GrayBlue,
    /// The outline of the larger square.
    Red,
}

impl Color {
    /// Red, green, blue and opacity, each in thousandths of full intensity.
    pub open spec fn spec_rgba(self) -> (u16, u16, u16, u16) {
        match self {
            Color::White => (1000, 1000, 1000, 1000),
            Color::GrayBlue => (345, 423, 463, 1000),
            Color::Red => (941, 353, 392, 1000),
        }
    }

    /// Red, green, blue and opacity, each in thousandths of full intensity.
    #[verifier::when_used_as_spec(spec_rgba)]
    pub fn rgba(self) -> (parts: (u16, u16, u16, u16))
        ensures
            parts == self.spec_rgba(),
    {
        match self {
            Color::White => (1000, 1000, 1000, 1000),
            Color::GrayBlue => (345, 423, 463, 1000),
            Color::Red => (941, 353, 392, 1000),
        }
    }
}

/// The distance from `low` to `high` as the window system reports it: the
/// difference, reduced to an unsigned 32-bit number.
pub open spec fn extent(low: int, high: int) -> int {
    (high - low) % 0x1_0000_0000
}

/// The client area of a window as the window system describes it: its edges
/// in pixels. The window system puts the left and top edges at zero.
#[derive(Clone, Copy, PartialEq, Eq, Debug)]
pub struct ClientRect {
    pub left: i32,
    pub top: i32,
    pub right: i32,
    pub bottom: i32,
}

impl ClientRect {
    /// The width in pixels.
    pub open spec fn spec_width(self) -> int {
        extent(self.left as int, self.right as int)
    }

    /// The height in pixels.
    pub open spec fn spec_height(self) -> int {
        extent(self.top as int, self.bottom as int)
    }

    /// The width in pixels.
    pub fn width(self) -> (w: u32)
        ensures
            w == self.spec_width(),
    {
        span(self.left, self.right)
    }

    /// The height in pixels.
    pub fn height(self) -> (h: u32)
        ensures
            h == self.spec_height(),
    {
        span(self.top, self.bottom)
    }
}

/// Computes the distance from `low` to `high`, reduced to 32 bits.
fn span(low: i32, high: i32) -> (d: u32)
    ensures
        d == extent(low as int, high as int),
{
    let diff: i64 = high as i64 - low as i64;
    if diff < 0 {
        (diff + 0x1_0000_0000) as u32
    } else {
        diff as u32
    }
}

} // verus!
