//! The geometry of the pseudo-terminal and of the key history line.

use vstd::prelude::*;

verus! {

/// Rows of the real terminal kept for the key history line.
pub const RESERVED_ROWS: u16 = 1;

/// Columns of margin around the key history line, one on each side.
pub const SIDE_MARGIN: u16 = 2;

/// The size of a terminal, in cells and in pixels.
#[derive(Clone, Copy, Debug, PartialEq, Eq, Structural)]
pub struct Geometry {
    pub rows: u16,
    pub cols: u16,
    pub pixel_width: u16,
    pub pixel_height: u16,
}

/// The fewest rows the child and the emulator are given: the emulator
/// needs two to wrap a line.
pub const MIN_ROWS: u16 = 2;

/// The fewest columns the child and the emulator are given: the emulator
/// needs two to place a double-width character.
pub const MIN_COLS: u16 = 2;

/// A count brought into `least..=u16::MAX`.
pub open spec fn clamp_between(n: int, least: int) -> int {
    if n < least {
        least
    } else if n > u16::MAX {
        u16::MAX as int
    } else {
        n
    }
}

/// A row count brought into `MIN_ROWS..=u16::MAX`.
pub open spec fn clamp_rows(n: int) -> int {
    clamp_between(n, MIN_ROWS as int)
}

/// A column count brought into `MIN_COLS..=u16::MAX`.
pub open spec fn clamp_cols(n: int) -> int {
    clamp_between(n, MIN_COLS as int)
}

/// The rows left to the child once the history line is reserved.
pub open spec fn child_rows(rows: int) -> int {
    clamp_rows(rows - RESERVED_ROWS)
}

/// The width budget of the key history for a terminal of `cols` columns.
pub open spec fn budget_for(cols: int) -> int {
    if cols >= SIDE_MARGIN {
        cols - SIDE_MARGIN
    } else {
        0
    }
}

fn clamp_to(n: usize, least: u16) -> (r: u16)
    ensures
        r as int == clamp_between(n as int, least as int),
{
    if n < least as usize {
        least
    } else if n > u16::MAX as usize {
        u16::MAX
    } else {
        n as u16
    }
}

/// The size given to the child's pseudo-terminal for a real terminal of the
/// given size: one row fewer, and at least two rows and two columns.
pub fn child_geometry(window: Geometry) -> (g: Geometry)
    ensures
        g.rows as int == child_rows(window.rows as int),
        g.cols as int == clamp_cols(window.cols as int),
        g.pixel_width == window.pixel_width,
        g.pixel_height == window.pixel_height,
{
    let rows = if window.rows >= RESERVED_ROWS + MIN_ROWS {
        window.rows - RESERVED_ROWS
    } else {
        MIN_ROWS
    };
    let cols = if window.cols < MIN_COLS {
        MIN_COLS
    } else {
        window.cols
    };
    Geometry { rows, cols, pixel_width: window.pixel_width, pixel_height: window.pixel_height }
}

/// The width budget of the key history for a terminal of `cols` columns:
/// the columns less the side margins, or nothing where there are fewer.
pub fn history_budget(cols: u16) -> (b: usize)
    ensures
        b as int == budget_for(cols as int),
{
    if cols >= SIDE_MARGIN {
        (cols - SIDE_MARGIN) as usize
    } else {
        0
    }
}

/// What a resize of the real terminal changes: the child's geometry and the
/// key history's budget.
#[derive(Clone, Copy, Debug, PartialEq, Eq, Structural)]
pub struct ResizePlan {
    pub pty: Geometry,
    pub budget: usize,
}

/// The plan for a real terminal resized to `rows` by `cols`: the child gets
/// one row fewer and the new columns (at least two rows and two columns),
/// keeping the pixel size it had; the history's budget follows the new
/// columns.
pub open spec fn resize_plan(rows: int, cols: int, current: Geometry) -> ResizePlan {
    let c = clamp_cols(cols);
    ResizePlan {
        pty: Geometry {
            rows: child_rows(rows) as u16,
            cols: c as u16,
            pixel_width: current.pixel_width,
            pixel_height: current.pixel_height,
        },
        budget: budget_for(c) as usize,
    }
}

/// Computes [`resize_plan`].
pub fn plan_resize(rows: usize, cols: usize, current: Geometry) -> (p: ResizePlan)
    ensures
        p == resize_plan(rows as int, cols as int, current),
        p.pty.rows >= MIN_ROWS,
        p.pty.cols >= MIN_COLS,
{
    let child = if rows > RESERVED_ROWS as usize {
        rows - RESERVED_ROWS as usize
    } else {
        0
    };
    let r = clamp_to(child, MIN_ROWS);
    let c = clamp_to(cols, MIN_COLS);
    let pty = Geometry {
        rows: r,
        cols: c,
        pixel_width: current.pixel_width,
        pixel_height: current.pixel_height,
    };
    ResizePlan { pty, budget: history_budget(c) }
}

} // verus!
