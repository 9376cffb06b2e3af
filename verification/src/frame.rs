//! The layout of one frame: a grid over the whole target and two squares
//! around its centre.

use vstd::prelude::*;
use crate::geometry::{centered_square, Point, Rect, HALF_UNITS};
use crate::handle::Handle;
use crate::protocol::Command;

verus! {

/// The distance between two neighbouring grid lines, in units.
pub const GRID_PITCH: u32 = 10;

/// The stroke width of a grid line: half a unit.
pub const GRID_STROKE: u32 = 1;

/// Half the side of the filled square, in units.
pub const FILLED_HALF_EXTENT: u16 = 50;

/// Half the side of the outlined square, in units.
pub const OUTLINED_HALF_EXTENT: u16 = 100;

/// The stroke width of the outline: three units.
pub const OUTLINE_STROKE: u32 = 6;

/// The number of grid lines that cross a side of the given length.
pub open spec fn grid_lines(length: u32) -> nat {
    (length / GRID_PITCH) as nat
}

/// The `k`-th vertical grid line of a target of the given height: from the
/// top edge to the bottom edge, `k` pitches from the left edge.
pub open spec fn column(target: Handle, brush: Handle, k: int, height: u32) -> Command {
    Command::Line {
        target,
        from: Point { x: (HALF_UNITS * GRID_PITCH * k) as i64, y: 0 },
        to: Point { x: (HALF_UNITS * GRID_PITCH * k) as i64, y: (HALF_UNITS * height) as i64 },
        brush,
        stroke: GRID_STROKE,
    }
}

/// The `k`-th horizontal grid line of a target of the given width: from the
/// left edge to the right edge, `k` pitches from the top edge.
pub open spec fn row(target: Handle, brush: Handle, k: int, width: u32) -> Command {
    Command::Line {
        target,
        from: Point { x: 0, y: (HALF_UNITS * GRID_PITCH * k) as i64 },
        to: Point { x: (HALF_UNITS * width) as i64, y: (HALF_UNITS * GRID_PITCH * k) as i64 },
        brush,
        stroke: GRID_STROKE,
    }
}

/// The vertical grid lines, from left to right.
pub open spec fn columns(target: Handle, brush: Handle, width: u32, height: u32) -> Seq<Command> {
    Seq::new(grid_lines(width), |k: int| column(target, brush, k, height))
}

/// The horizontal grid lines, from top to bottom.
pub open spec fn rows(target: Handle, brush: Handle, width: u32, height: u32) -> Seq<Command> {
    Seq::new(grid_lines(height), |k: int| row(target, brush, k, width))
}

/// The two squares: the smaller one filled with the first brush, the larger
/// one outlined with the second.
pub open spec fn squares(
    target: Handle,
    brush1: Handle,
    brush2: Handle,
    width: u32,
    height: u32,
) -> Seq<Command> {
    seq![
        Command::FillRect {
            target,
            rect: centered_square(width, height, FILLED_HALF_EXTENT as int),
            brush: brush1,
        },
        Command::StrokeRect {
            target,
            rect: centered_square(width, height, OUTLINED_HALF_EXTENT as int),
            brush: brush2,
            stroke: OUTLINE_STROKE,
        },
    ]
}

/// The drawing of one frame on a target of the given size, in units: the
/// vertical grid lines, the horizontal grid lines, then the two squares.
pub open spec fn scene(
    target: Handle,
    brush1: Handle,
    brush2: Handle,
    width: u32,
    height: u32,
) -> Seq<Command> {
    columns(target, brush1, width, height) + rows(target, brush1, width, height) + squares(
        target,
        brush1,
        brush2,
        width,
        height,
    )
}

/// Lays out one frame on a target of the given size, in units.
pub fn draw_scene(
    target: Handle,
    brush1: Handle,
    brush2: Handle,
    width: u32,
    height: u32,
) -> (commands: Vec<Command>)
    ensures
        commands@ == scene(target, brush1, brush2, width, height),
{
    let mut commands: Vec<Command> = Vec::new();
    let bottom: i64 = HALF_UNITS * (height as i64);
    let right: i64 = HALF_UNITS * (width as i64);
    let step: i64 = HALF_UNITS * (GRID_PITCH as i64);

    let across: u32 = width / GRID_PITCH;
    let mut k: u32 = 0;
    while k < across
        invariant
            k <= across,
            across == width / GRID_PITCH,
            bottom == 2 * height,
            step == 20,
            commands@ == Seq::new(k as nat, |i: int| column(target, brush1, i, height)),
        decreases across - k,
    {
        let x: i64 = step * (k as i64);
        commands.push(
            Command::Line {
                target,
                from: Point { x, y: 0 },
                to: Point { x, y: bottom },
                brush: brush1,
                stroke: GRID_STROKE,
            },
        );
        k = k + 1;
    }

    let down: u32 = height / GRID_PITCH;
    let mut k: u32 = 0;
    while k < down
        invariant
            k <= down,
            down == height / GRID_PITCH,
            right == 2 * width,
            step == 20,
            commands@ == columns(target, brush1, width, height) + Seq::new(
                k as nat,
                |i: int| row(target, brush1, i, width),
            ),
        decreases down - k,
    {
        let y: i64 = step * (k as i64);
        commands.push(
            Command::Line {
                target,
                from: Point { x: 0, y },
                to: Point { x: right, y },
                brush: brush1,
                stroke: GRID_STROKE,
            },
        );
        k = k + 1;
    }

    commands.push(
        Command::FillRect {
            target,
            rect: Rect::centered(width, height, FILLED_HALF_EXTENT),
            brush: brush1,
        },
    );
    commands.push(
        Command::StrokeRect {
            target,
            rect: Rect::centered(width, height, OUTLINED_HALF_EXTENT),
            brush: brush2,
            stroke: OUTLINE_STROKE,
        },
    );
    commands
}

} // verus!
