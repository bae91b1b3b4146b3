//! Selecting text in a pane: cells, spans and the words under a pointer.

use vstd::prelude::*;
use vstd::string::*;
use crate::emulator::{smaller, Screen, TerminalEmulator};
use crate::geometry::Rect;
use crate::process::PaneId;
use crate::text::{is_white, opt_text, white};

verus! {

/// A cell of the visible grid.
#[derive(Debug, Clone, Copy, PartialEq, Eq, Structural)]
pub struct GridCell {
    /// Row of the view.
    pub row: u16,
    /// Column.
    pub column: u16,
}

/// A cell of a pane's whole buffer, history included.
#[derive(Debug, Clone, Copy, PartialEq, Eq, Structural)]
pub struct BufferCell {
    /// Retained line.
    pub row: usize,
    /// Column.
    pub column: u16,
}

impl BufferCell {
    /// Whether this cell comes no later than `other` in reading order.
    pub open spec fn upto(self, other: BufferCell) -> bool {
        self.row < other.row || (self.row == other.row && self.column <= other.column)
    }
}

/// Where a pane's view sits in its scrollback.
#[derive(Debug, Clone, Copy, PartialEq, Eq, Structural)]
pub struct ScrollMetrics {
    /// Lines scrolled up into history.
    pub offset: usize,
    /// Lines of history.
    pub len: usize,
}

impl ScrollMetrics {
    /// The retained line at the top of the view.
    pub open spec fn top(self) -> int {
        if self.offset <= self.len {
            self.len - self.offset
        } else {
            0
        }
    }

    /// The buffer cell under a cell of the view.
    pub open spec fn under(self, cell: GridCell) -> BufferCell {
        let row = self.top() + cell.row;
        BufferCell {
            row: if row <= usize::MAX {
                row as usize
            } else {
                usize::MAX
            },
            column: cell.column,
        }
    }

    /// Returns the retained line at the top of the view.
    pub fn viewport_top(self) -> (top: usize)
        ensures
            top == self.top(),
    {
        self.len.saturating_sub(self.offset)
    }

    /// Returns the buffer cell under a cell of the view.
    pub fn buffer_cell(self, cell: GridCell) -> (under: BufferCell)
        ensures
            under == self.under(cell),
    {
        BufferCell {
            row: self.viewport_top().saturating_add(cell.row as usize),
            column: cell.column,
        }
    }
}

/// The cell of `grid` at an outer coordinate, where it lies in the grid.
pub open spec fn grid_cell(grid: Rect, column: u16, row: u16) -> Option<GridCell> {
    if grid.holds(column, row) {
        Some(GridCell { row: (row - grid.y) as u16, column: (column - grid.x) as u16 })
    } else {
        None
    }
}

/// Returns the cell of `grid` at an outer coordinate, where it lies in it.
pub fn cell_at(grid: Rect, column: u16, row: u16) -> (cell: Option<GridCell>)
    ensures
        cell == grid_cell(grid, column, row),
{
    if grid.contains(column, row) {
        Some(GridCell { row: row - grid.y, column: column - grid.x })
    } else {
        None
    }
}

/// `value` counted from `start`, held inside a run of `len`.
pub open spec fn clamped(value: u16, start: u16, len: u16) -> u16 {
    if value < start {
        0
    } else if value - start >= len {
        (len - 1) as u16
    } else {
        (value - start) as u16
    }
}

/// The cell of `grid` nearest to an outer coordinate, unless the grid is empty.
pub open spec fn closest_cell(grid: Rect, column: u16, row: u16) -> Option<GridCell> {
    if grid.width == 0 || grid.height == 0 {
        None
    } else {
        Some(
            GridCell {
                row: clamped(row, grid.y, grid.height),
                column: clamped(column, grid.x, grid.width),
            },
        )
    }
}

/// Returns `value` counted from `start`, held inside a run of `len`.
fn clamp_into(value: u16, start: u16, len: u16) -> (inside: u16)
    requires
        len > 0,
    ensures
        inside == clamped(value, start, len),
{
    if value < start {
        0
    } else if value - start >= len {
        len - 1
    } else {
        value - start
    }
}

/// Returns the cell of `grid` nearest to an outer coordinate, unless the grid
/// is empty.
pub fn nearest_cell(grid: Rect, column: u16, row: u16) -> (cell: Option<GridCell>)
    ensures
        cell == closest_cell(grid, column, row),
{
    if grid.width == 0 || grid.height == 0 {
        return None;
    }
    Some(
        GridCell {
            row: clamp_into(row, grid.y, grid.height),
            column: clamp_into(column, grid.x, grid.width),
        },
    )
}

/// A coordinate inside the grid is its own nearest cell.
pub proof fn a_cell_inside_is_nearest_to_itself(grid: Rect, column: u16, row: u16)
    requires
        grid.holds(column, row),
    ensures
        closest_cell(grid, column, row) == grid_cell(grid, column, row),
{
}

/// Returns how many lines a drag scrolls at once when the pointer is
/// `distance` rows beyond the edge.
pub fn edge_scroll_lines(distance: u16) -> (lines: usize)
    ensures
        lines == distance,
{
    distance as usize
}

/// How far a selection has come.
#[derive(Debug, Clone, Copy, PartialEq, Eq, Structural)]
pub enum SelectionPhase {
    /// A press that has not moved.
    Pressed,
    /// A drag.
    Dragging,
    /// A finished selection that only stays visible.
    Finished,
}

/// A selection of pane text.
#[derive(Debug, Clone, Copy, PartialEq, Eq, Structural)]
pub struct Selection {
    /// Pane it belongs to.
    pub pane: PaneId,
    /// Cell where it began.
    pub anchor: BufferCell,
    /// Cell where it ends.
    pub head: BufferCell,
    /// How far it has come.
    pub phase: SelectionPhase,
}

impl Selection {
    /// A press at `cell`.
    pub open spec fn pressed(pane: PaneId, cell: BufferCell) -> Selection {
        Selection { pane, anchor: cell, head: cell, phase: SelectionPhase::Pressed }
    }

    /// A finished selection from `start` to `end`.
    pub open spec fn finished(pane: PaneId, start: BufferCell, end: BufferCell) -> Selection {
        Selection { pane, anchor: start, head: end, phase: SelectionPhase::Finished }
    }

    /// The selection with its head moved: leaving the cell where it began turns
    /// a press into a drag; a finished selection stays as it is.
    pub open spec fn extended(self, cell: BufferCell) -> Selection {
        if self.phase == SelectionPhase::Finished {
            self
        } else {
            Selection {
                head: cell,
                phase: if cell != self.anchor {
                    SelectionPhase::Dragging
                } else {
                    self.phase
                },
                ..self
            }
        }
    }

    /// Whether the button is still held.
    pub open spec fn held(self) -> bool {
        self.phase != SelectionPhase::Finished
    }

    /// The selected span in reading order.
    pub open spec fn ordered(self) -> (BufferCell, BufferCell) {
        if self.anchor.upto(self.head) {
            (self.anchor, self.head)
        } else {
            (self.head, self.anchor)
        }
    }

    /// The part of the selection that a view of `rows` by `columns` cells
    /// shows when its first row is the retained line `top`. A mere press shows
    /// nothing.
    pub open spec fn seen(self, top: int, rows: u16, columns: u16) -> Option<(GridCell, GridCell)> {
        let start = self.ordered().0;
        let end = self.ordered().1;
        if self.phase == SelectionPhase::Pressed || rows == 0 || columns == 0 || end.row < top
            || start.row >= top + rows {
            None
        } else {
            Some(
                (
                    if start.row < top {
                        GridCell { row: 0, column: 0 }
                    } else {
                        GridCell { row: (start.row - top) as u16, column: start.column }
                    },
                    if end.row >= top + rows {
                        GridCell { row: (rows - 1) as u16, column: (columns - 1) as u16 }
                    } else {
                        GridCell { row: (end.row - top) as u16, column: end.column }
                    },
                ),
            )
        }
    }

    /// Returns a press at `cell`.
    pub fn anchored(pane: PaneId, cell: BufferCell) -> (selection: Selection)
        ensures
            selection == Selection::pressed(pane, cell),
    {
        Selection { pane, anchor: cell, head: cell, phase: SelectionPhase::Pressed }
    }

    /// Returns a finished selection from `start` to `end`.
    pub fn word(pane: PaneId, start: BufferCell, end: BufferCell) -> (selection: Selection)
        ensures
            selection == Selection::finished(pane, start, end),
    {
        Selection { pane, anchor: start, head: end, phase: SelectionPhase::Finished }
    }

    /// Moves the head of the selection.
    pub fn extend_to(&mut self, cell: BufferCell)
        ensures
            *final(self) == old(self).extended(cell),
    {
        if self.phase == SelectionPhase::Finished {
            return ;
        }
        if cell != self.anchor {
            self.phase = SelectionPhase::Dragging;
        }
        self.head = cell;
    }

    /// Returns whether the button is still held.
    pub fn is_in_progress(&self) -> (held: bool)
        ensures
            held == self.held(),
    {
        self.phase != SelectionPhase::Finished
    }

    /// Returns whether the selection is a press that has not moved.
    pub fn is_click(&self) -> (click: bool)
        ensures
            click == (self.phase == SelectionPhase::Pressed),
    {
        self.phase == SelectionPhase::Pressed
    }

    /// Returns whether the selection is a drag.
    pub fn is_dragging(&self) -> (dragging: bool)
        ensures
            dragging == (self.phase == SelectionPhase::Dragging),
    {
        self.phase == SelectionPhase::Dragging
    }

    /// Returns the selected span in reading order.
    pub fn span(&self) -> (span: (BufferCell, BufferCell))
        ensures
            span == self.ordered(),
            span.0.upto(span.1),
    {
        let a: BufferCell = self.anchor;
        let h: BufferCell = self.head;
        if a.row < h.row || (a.row == h.row && a.column <= h.column) {
            (a, h)
        } else {
            (h, a)
        }
    }

    /// Returns the part of the selection that a view shows.
    pub fn viewport_span(&self, top: usize, rows: u16, columns: u16) -> (seen: Option<
        (GridCell, GridCell),
    >)
        ensures
            seen == self.seen(top as int, rows, columns),
    {
        let span = self.span();
        let start: BufferCell = span.0;
        let end: BufferCell = span.1;
        if self.phase == SelectionPhase::Pressed || rows == 0 || columns == 0 || end.row < top {
            return None;
        }
        if start.row >= top && start.row - top >= rows as usize {
            return None;
        }
        let first = if start.row < top {
            GridCell { row: 0, column: 0 }
        } else {
            GridCell { row: (start.row - top) as u16, column: start.column }
        };
        let last = if end.row - top >= rows as usize {
            GridCell { row: rows - 1, column: columns - 1 }
        } else {
            GridCell { row: (end.row - top) as u16, column: end.column }
        };
        Some((first, last))
    }
}

/// Where the run of characters that are no white space and contain `index`
/// begins.
pub open spec fn token_start(text: Seq<char>, index: int) -> int
    decreases index,
{
    if index > 0 && !is_white(text[index - 1]) {
        token_start(text, index - 1)
    } else {
        index
    }
}

/// Where the run of characters that are no white space and contain `index`
/// ends.
pub open spec fn token_end(text: Seq<char>, index: int) -> int
    decreases text.len() - index,
{
    if 0 <= index && index + 1 < text.len() && !is_white(text[index + 1]) {
        token_end(text, index + 1)
    } else {
        index
    }
}

/// The first and last column of the word at `column`, unless there is none.
pub open spec fn word_span(text: Seq<char>, column: u16) -> Option<(u16, u16)> {
    if column < text.len() && !is_white(text[column as int]) && token_end(text, column as int)
        <= u16::MAX {
        Some(
            (
                token_start(text, column as int) as u16,
                token_end(text, column as int) as u16,
            ),
        )
    } else {
        None
    }
}

/// Returns the first and last column of the word at `column`, unless there is
/// none there.
pub fn word_bounds(text: &String, column: u16) -> (bounds: Option<(u16, u16)>)
    ensures
        bounds == word_span(text@, column),
{
    let whole: &str = text.as_str();
    let len: usize = whole.unicode_len();
    let at: usize = column as usize;
    if at >= len || white(whole.get_char(at)) {
        return None;
    }
    let mut start: usize = at;
    while start > 0 && !white(whole.get_char(start - 1))
        invariant
            whole@ == text@,
            start <= at < len == text@.len(),
            token_start(text@, at as int) == token_start(text@, start as int),
        decreases start,
    {
        start = start - 1;
    }
    let mut end: usize = at;
    while end < len - 1 && !white(whole.get_char(end + 1))
        invariant
            whole@ == text@,
            at <= end < len == text@.len(),
            token_end(text@, at as int) == token_end(text@, end as int),
        decreases len - end,
    {
        end = end + 1;
    }
    if end > u16::MAX as usize {
        return None;
    }
    Some((start as u16, end as u16))
}

/// The text that a span of buffer cells selects on a screen: nothing where the
/// screen is empty or the span starts below its last line.
pub open spec fn selected_text(screen: Screen, start: BufferCell, end: BufferCell) -> Option<
    Seq<char>,
> {
    let max_row = screen.history() + screen.rows - 1;
    if screen.rows == 0 || screen.cols == 0 || start.row > max_row {
        None
    } else {
        Some(
            screen.span_text(
                start.row as int,
                start.column as int,
                smaller(end.row as int, max_row),
                smaller(end.column + 1, screen.cols as int),
            ),
        )
    }
}

impl TerminalEmulator {
    /// Reads the text of a span of buffer cells, wherever in the scrollback it
    /// lies.
    pub fn extract_span(&self, start: BufferCell, end: BufferCell) -> (text: Option<String>)
        ensures
            opt_text(text) == selected_text(self@, start, end),
    {
        let (rows, columns): (u16, u16) = self.size();
        if rows == 0 || columns == 0 {
            return None;
        }
        let max_row: usize = self.history_len() + (rows as usize - 1);
        if start.row > max_row {
            return None;
        }
        let end_row: usize = if end.row <= max_row {
            end.row
        } else {
            max_row
        };
        let end_column: u16 = if end.column < columns {
            end.column + 1
        } else {
            columns
        };
        Some(self.lines_text(start.row, start.column, end_row, end_column))
    }
}

/// A selection extended to the cell where it began is still a press; extended
/// anywhere else it is a drag, and a drag stays one.
pub proof fn leaving_the_anchor_starts_a_drag(
    pane: PaneId,
    anchor: BufferCell,
    cell: BufferCell,
    later: BufferCell,
)
    ensures
        Selection::pressed(pane, anchor).extended(anchor) == Selection::pressed(pane, anchor),
        cell != anchor ==> Selection::pressed(pane, anchor).extended(cell).phase
            == SelectionPhase::Dragging,
        cell != anchor ==> Selection::pressed(pane, anchor).extended(cell).extended(later).phase
            == SelectionPhase::Dragging,
        Selection::pressed(pane, anchor).extended(cell).extended(later).head == later,
{
}

} // verus!
