//! Rectangles of the frame and how the frame is divided.

use vstd::prelude::*;
use ratatui::layout::{Constraint, Direction, Layout};

verus! {

/// Sidebar width, in columns.
pub const SIDEBAR_WIDTH: u16 = 32;

/// Status bar height, in rows.
pub const STATUS_BAR_HEIGHT: u16 = 1;

/// Terminal-pane border thickness, per side.
pub const BORDER_THICKNESS: u16 = 1;

/// Smallest terminal dimension. A pane is never sized smaller than this, even
/// when the area it is drawn in is tiny or empty.
pub const MIN_PANE_DIMENSION: u16 = 8;

/// A rectangle of terminal cells.
#[derive(Debug, Clone, Copy, PartialEq, Eq, Structural)]
pub struct Rect {
    /// Leftmost column.
    pub x: u16,
    /// Topmost row.
    pub y: u16,
    /// Number of columns.
    pub width: u16,
    /// Number of rows.
    pub height: u16,
}

/// `a` and `b` added up, or the largest number where they do not fit.
pub open spec fn plus(a: u16, b: u16) -> u16 {
    if a + b <= u16::MAX {
        (a + b) as u16
    } else {
        u16::MAX
    }
}

/// `b` taken from `a`, or zero where there is less.
pub open spec fn minus(a: u16, b: u16) -> u16 {
    if b <= a {
        (a - b) as u16
    } else {
        0
    }
}

/// The smaller of two numbers.
pub open spec fn least(a: u16, b: u16) -> u16 {
    if a <= b {
        a
    } else {
        b
    }
}

/// The larger of two numbers.
pub open spec fn most(a: u16, b: u16) -> u16 {
    if a >= b {
        a
    } else {
        b
    }
}

impl Rect {
    /// The rectangle with the given corner and size.
    pub fn new(x: u16, y: u16, width: u16, height: u16) -> (rect: Rect)
        ensures
            rect == (Rect { x, y, width, height }),
    {
        Rect { x, y, width, height }
    }

    /// Whether the cell at a column and a row lies in this rectangle.
    pub open spec fn holds(self, column: u16, row: u16) -> bool {
        &&& self.x <= column < plus(self.x, self.width)
        &&& self.y <= row < plus(self.y, self.height)
    }

    /// Returns whether the cell at a column and a row lies in this rectangle.
    pub fn contains(self, column: u16, row: u16) -> (inside: bool)
        ensures
            inside == self.holds(column, row),
    {
        self.x <= column && column < self.x.saturating_add(self.width) && self.y <= row && row
            < self.y.saturating_add(self.height)
    }
}

/// The size of a pane's terminal.
#[derive(Debug, Clone, Copy, PartialEq, Eq, Structural)]
pub struct PaneSize {
    /// Rows.
    pub rows: u16,
    /// Columns.
    pub cols: u16,
}

/// How an area is divided.
#[derive(Debug, Clone, Copy, PartialEq, Eq, Structural)]
pub enum Axis {
    /// Into a part and one below it.
    Down,
    /// Into a part and one to its right.
    Across,
}

/// Which part of a divided area has the fixed length.
#[derive(Debug, Clone, Copy, PartialEq, Eq, Structural)]
pub enum Fixed {
    /// The first one.
    First,
    /// The second one.
    Second,
}

/// The length of an area along an axis, as far as its cells can be addressed.
pub open spec fn length_along(area: Rect, axis: Axis) -> u16 {
    match axis {
        Axis::Down => minus(plus(area.y, area.height), area.y),
        Axis::Across => minus(plus(area.x, area.width), area.x),
    }
}

/// An area cut into a first part of a given length and the rest.
pub open spec fn cut_at(area: Rect, axis: Axis, at: u16) -> (Rect, Rect) {
    let rest = minus(length_along(area, axis), at);
    match axis {
        Axis::Down => (
            Rect { height: at, ..area },
            Rect { y: plus(area.y, at), height: rest, ..area },
        ),
        Axis::Across => (
            Rect { width: at, ..area },
            Rect { x: plus(area.x, at), width: rest, ..area },
        ),
    }
}

/// An area divided into a part of a fixed length and one that takes what is left.
/// Where there is not enough for both, the latter first gets the length it needs.
pub open spec fn divided(area: Rect, axis: Axis, place: Fixed, fixed: u16, needed: u16) -> (
    Rect,
    Rect,
) {
    let length = length_along(area, axis);
    let left = most(minus(length, fixed), least(needed, length));
    match place {
        Fixed::First => cut_at(area, axis, minus(length, left)),
        Fixed::Second => cut_at(area, axis, left),
    }
}

/// `ratatui::layout::Layout::split` over a `Length` and a `Min` constraint. The
/// `Min` part grows over all that the `Length` part leaves, and its least length
/// goes before the fixed one. `Layout::split` reads the least length as a signed
/// number, which bounds it.
#[verifier::external_body]
fn divide(area: Rect, axis: Axis, place: Fixed, fixed: u16, needed: u16) -> (parts: (Rect, Rect))
    requires
        needed <= 0x7fff,
    ensures
        parts == divided(area, axis, place, fixed, needed),
{
    let direction = match axis {
        Axis::Down => Direction::Vertical,
        Axis::Across => Direction::Horizontal,
    };
    let constraints = match place {
        Fixed::First => [Constraint::Length(fixed), Constraint::Min(needed)],
        Fixed::Second => [Constraint::Min(needed), Constraint::Length(fixed)],
    };
    let outer = ratatui::layout::Rect { x: area.x, y: area.y, width: area.width, height: area.height };
    let parts = Layout::new(direction, constraints).split(outer);
    let plain = |part: ratatui::layout::Rect|
        Rect { x: part.x, y: part.y, width: part.width, height: part.height };
    (plain(parts[0]), plain(parts[1]))
}

/// The parts of the frame.
#[derive(Debug, Clone, Copy, PartialEq, Eq, Structural)]
pub struct Areas {
    /// Sidebar.
    pub sidebar: Rect,
    /// Main pane, border included.
    pub main: Rect,
    /// Status bar.
    pub status: Rect,
}

/// The division of a frame: a status bar at the bottom, a sidebar at the left
/// of the rest.
pub open spec fn frame_areas(area: Rect) -> Areas {
    let rows = divided(area, Axis::Down, Fixed::Second, STATUS_BAR_HEIGHT, 1);
    let columns = divided(rows.0, Axis::Across, Fixed::First, SIDEBAR_WIDTH, 1);
    Areas { sidebar: columns.0, main: columns.1, status: rows.1 }
}

/// Splits a frame into its sidebar, main and status rectangles.
pub fn areas(area: Rect) -> (parts: Areas)
    ensures
        parts == frame_areas(area),
{
    let rows = divide(area, Axis::Down, Fixed::Second, STATUS_BAR_HEIGHT, 1);
    let columns = divide(rows.0, Axis::Across, Fixed::First, SIDEBAR_WIDTH, 1);
    Areas { sidebar: columns.0, main: columns.1, status: rows.1 }
}

/// The terminal size that fits inside the border of the main area.
pub open spec fn inner_size(main: Rect) -> PaneSize {
    PaneSize {
        rows: most(minus(main.height, 2), MIN_PANE_DIMENSION),
        cols: most(minus(main.width, 2), MIN_PANE_DIMENSION),
    }
}

/// Returns the terminal size that fits inside the border of the main area.
pub fn size_inside(main: Rect) -> (size: PaneSize)
    ensures
        size == inner_size(main),
{
    let rows: u16 = main.height.saturating_sub(2);
    let cols: u16 = main.width.saturating_sub(2);
    PaneSize {
        rows: if rows >= MIN_PANE_DIMENSION {
            rows
        } else {
            MIN_PANE_DIMENSION
        },
        cols: if cols >= MIN_PANE_DIMENSION {
            cols
        } else {
            MIN_PANE_DIMENSION
        },
    }
}

/// Returns the terminal size of the main pane for a given frame `area`.
pub fn pane_size_of(area: Rect) -> (size: PaneSize)
    ensures
        size == inner_size(frame_areas(area).main),
{
    size_inside(areas(area).main)
}

/// A pane is never smaller than the smallest dimension that terminals take,
/// however the frame is divided.
pub proof fn panes_never_get_too_small(main: Rect)
    ensures
        inner_size(main).rows >= MIN_PANE_DIMENSION,
        inner_size(main).cols >= MIN_PANE_DIMENSION,
{
}

/// The parts of a frame tile it: every cell of the frame lies in exactly one of
/// them, and no other cell lies in any.
pub proof fn the_frame_is_tiled(area: Rect, column: u16, row: u16)
    ensures
        area.holds(column, row) <==> {
            ||| frame_areas(area).sidebar.holds(column, row)
            ||| frame_areas(area).main.holds(column, row)
            ||| frame_areas(area).status.holds(column, row)
        },
        !(frame_areas(area).sidebar.holds(column, row) && frame_areas(area).main.holds(column, row)),
        !(frame_areas(area).sidebar.holds(column, row) && frame_areas(area).status.holds(
            column,
            row,
        )),
        !(frame_areas(area).main.holds(column, row) && frame_areas(area).status.holds(column, row)),
{
}

} // verus!
