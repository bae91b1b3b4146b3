//! Pointer input: focus by click, mouse reports, the wheel, and selecting text.

use vstd::prelude::*;
use crate::app::{App, AppModel, Autoscroll, Focus, PaneClick, PointerModel, PointerShape};
use crate::effect::{Effect, EffectModel};
use crate::emulator::{MouseProtocolMode, Screen, TerminalEmulator};
use crate::geometry::{
    areas, frame_areas, least, minus, plus, Rect, BORDER_THICKNESS,
};
use crate::input::{
    encode_mouse, mouse_bytes, wheel_arrow, wheel_bytes, MouseButton, MouseEvent, MouseEventKind,
};
use crate::message::{region_holds, ToastText, Tone};
use crate::moment::{deadline_due, earliest, earliest_of, is_due, Moment};
use crate::pane::{pane_of, with_screen};
use crate::process::PaneId;
use crate::selection::{
    cell_at, closest_cell, edge_scroll_lines, grid_cell, nearest_cell, selected_text, word_bounds,
    word_span, BufferCell, GridCell, ScrollMetrics, Selection, SelectionPhase,
};
use crate::text::opt_text;

verus! {

/// How close two presses on one cell lie for a double click, in milliseconds.
pub const PANE_DOUBLE_CLICK_MILLIS: u64 = 350;

/// How long a copied word stays highlighted, in milliseconds.
pub const PANE_COPY_HIGHLIGHT_MILLIS: u64 = 500;

/// Interval of an edge-drag autoscroll, in milliseconds.
pub const SELECTION_AUTOSCROLL_MILLIS: u64 = 30;

/// Lines that one step of the wheel scrolls.
pub const WHEEL_SCROLL_LINES: usize = 3;

/// A row of the sidebar.
#[derive(Debug, Clone, Copy, PartialEq, Eq, Structural)]
pub enum SidebarSelection {
    /// A process of the active project.
    Process(usize),
    /// Another project.
    Project(usize),
}

/// What the host drew under the pointer.
#[derive(Debug, Clone, Copy, PartialEq, Eq, Structural)]
pub struct PointerFacts {
    /// Box of the notice.
    pub notice_region: Option<Rect>,
    /// Box of the toast.
    pub toast_region: Option<Rect>,
    /// Row of the sidebar under the pointer.
    pub sidebar_row: Option<SidebarSelection>,
}

/// The absolute rectangle of a screen's visible cells: the main area inside its
/// border, no larger than the screen.
pub open spec fn grid_of(screen: Screen, main: Rect) -> Option<Rect> {
    let width = least(minus(main.width, 2), screen.cols);
    let height = least(minus(main.height, 2), screen.rows);
    if width > 0 && height > 0 {
        Some(
            Rect {
                x: plus(main.x, BORDER_THICKNESS),
                y: plus(main.y, BORDER_THICKNESS),
                width,
                height,
            },
        )
    } else {
        None
    }
}

/// An outer coordinate as a cell of the child's terminal.
pub open spec fn relative_position(area: Rect, column: u16, row: u16, screen: Screen) -> Option<
    (u16, u16),
> {
    let x = column - plus(area.x, BORDER_THICKNESS);
    let y = row - plus(area.y, BORDER_THICKNESS);
    if 0 <= x < screen.cols && 0 <= y < screen.rows {
        Some((x as u16, y as u16))
    } else {
        None
    }
}

/// Where a screen's view sits in its scrollback.
pub open spec fn metrics_of(screen: Screen) -> ScrollMetrics {
    ScrollMetrics { offset: screen.display_offset, len: screen.history() as usize }
}

/// The offset of a view that is scrolled by some lines.
pub open spec fn offset_moved(offset: usize, lines: usize, up: bool) -> usize {
    if up {
        if offset + lines <= usize::MAX {
            (offset + lines) as usize
        } else {
            usize::MAX
        }
    } else if lines <= offset {
        (offset - lines) as usize
    } else {
        0
    }
}

/// The columns and the text of the word under a cell of the view, unless there
/// is none.
pub open spec fn word_under(screen: Screen, cell: GridCell) -> Option<(u16, u16, Seq<char>)> {
    let row = screen.view_top() + cell.row;
    match word_span(screen.span_text(row, 0, row, screen.cols as int), cell.column) {
        Some((start, end)) => {
            let text = screen.span_text(
                row,
                start as int,
                row,
                least(plus(end, 1), screen.cols) as int,
            );
            if text.len() > 0 {
                Some((start, end, text))
            } else {
                None
            }
        },
        None => None,
    }
}

/// Whether a press completes a double click.
pub open spec fn doubles(last: Option<PaneClick>, click: PaneClick) -> bool {
    last matches Some(last) && last.pane == click.pane && last.cell == click.cell && click.at.nanos
        - last.at.nanos <= PANE_DOUBLE_CLICK_MILLIS * 1_000_000
}

/// A write that is repeated.
pub open spec fn repeated(pane: PaneId, bytes: Seq<u8>, count: nat) -> Seq<EffectModel> {
    Seq::new(count, |i: int| EffectModel::Write(pane, bytes))
}

impl AppModel {
    /// The main area of the frame.
    pub open spec fn main_area(self) -> Rect {
        frame_areas(self.canvas.area).main
    }

    /// The application with other pointer state.
    pub open spec fn with_pointer(self, pointer: PointerModel) -> AppModel {
        AppModel { pointer, ..self }
    }

    /// The application with another selection.
    pub open spec fn with_selection(self, selection: Option<Selection>) -> AppModel {
        self.with_pointer(PointerModel { selection, ..self.pointer })
    }

    /// Whether a pane's live child asked for mouse reports.
    pub open spec fn wants_mouse(self, pane: PaneId) -> bool {
        pane_of(self.panes, pane) matches Some(found) && found.life.alive
            && found.screen.modes.mouse_mode() != MouseProtocolMode::Off
    }

    /// The rectangle of a pane's visible cells.
    pub open spec fn grid(self, pane: PaneId) -> Option<Rect> {
        match pane_of(self.panes, pane) {
            Some(found) => grid_of(found.screen, self.main_area()),
            None => None,
        }
    }

    /// Where a pane's view sits in its scrollback.
    pub open spec fn metrics(self, pane: PaneId) -> Option<ScrollMetrics> {
        match pane_of(self.panes, pane) {
            Some(found) => Some(metrics_of(found.screen)),
            None => None,
        }
    }

    /// The application with a pane scrolled by some lines.
    pub open spec fn scrolled_by(self, pane: PaneId, lines: usize, up: bool) -> AppModel {
        match pane_of(self.panes, pane) {
            Some(found) => self.with_panes(
                with_screen(
                    self.panes,
                    pane,
                    found.screen.scrolled(
                        offset_moved(found.screen.display_offset, lines, up),
                    ),
                ),
            ),
            None => self,
        }
    }

    /// The application with another autoscroll: its tick is armed when one
    /// starts and disarmed when it ends.
    pub open spec fn autoscrolling(self, autoscroll: Option<Autoscroll>, now: Moment) -> AppModel {
        self.with_pointer(
            PointerModel {
                autoscroll,
                autoscroll_deadline: if autoscroll is None {
                    None
                } else if self.pointer.autoscroll is None {
                    Some(now.later(SELECTION_AUTOSCROLL_MILLIS))
                } else {
                    self.pointer.autoscroll_deadline
                },
                ..self.pointer
            },
        )
    }

    /// The application with the head of its selection at the pane cell nearest
    /// to the pointer.
    pub open spec fn selection_extended(
        self,
        pane: PaneId,
        grid: Rect,
        column: u16,
        row: u16,
    ) -> AppModel {
        match closest_cell(grid, column, row) {
            None => self,
            Some(cell) => match self.metrics(pane) {
                None => self,
                Some(metrics) => match self.pointer.selection {
                    None => self,
                    Some(active) => self.with_selection(Some(active.extended(metrics.under(cell)))),
                },
            },
        }
    }

    /// Whether a selection of a pane is being made.
    pub open spec fn selecting(self, pane: PaneId) -> bool {
        self.pointer.selection matches Some(active) && active.pane == pane && active.held()
    }

    /// The application after a press on the sidebar.
    pub open spec fn sidebar_pressed(self, clicked: Option<SidebarSelection>) -> AppModel {
        let focused = self.focused(Focus::Sidebar);
        match clicked {
            None => focused,
            Some(SidebarSelection::Process(index)) => focused.with_cursor(None).with_roster(
                self.roster.select(index),
            ),
            Some(SidebarSelection::Project(index)) => focused.with_cursor(Some(index)),
        }
    }

    /// The application with a word copied and highlighted.
    pub open spec fn word_copied(
        self,
        pane: PaneId,
        pressed: BufferCell,
        start: u16,
        end: u16,
        text: Seq<char>,
        now: Moment,
    ) -> AppModel {
        AppModel {
            feedback: self.feedback.toasted(ToastText::Copied, Tone::Success, now),
            pointer: PointerModel {
                clipboard: Some(text),
                selection: Some(
                    Selection::finished(
                        pane,
                        BufferCell { row: pressed.row, column: start },
                        BufferCell { row: pressed.row, column: end },
                    ),
                ),
                clear_deadline: Some(now.later(PANE_COPY_HIGHLIGHT_MILLIS)),
                ..self.pointer
            },
            ..self
        }
    }

    /// The word under a cell of a pane's view.
    pub open spec fn word(self, pane: PaneId, cell: GridCell) -> Option<(u16, u16, Seq<char>)> {
        match pane_of(self.panes, pane) {
            Some(found) => word_under(found.screen, cell),
            None => None,
        }
    }

    /// The application that has compared a press with the last one. A double
    /// click uses the earlier press up.
    pub open spec fn click_taken(self, click: PaneClick) -> AppModel {
        self.with_pointer(
            PointerModel {
                last_click: if doubles(self.pointer.last_click, click) {
                    None
                } else {
                    Some(click)
                },
                ..self.pointer
            },
        )
    }

    /// The application after a left press in the main area: outside the cells it
    /// drops the selection, a double click copies the word under it, anything
    /// else begins a selection.
    #[verifier::opaque]
    pub open spec fn left_pressed(self, pane: PaneId, mouse: MouseEvent, now: Moment) -> AppModel {
        let calm = self.autoscrolling(None, now);
        let ready = calm.with_pointer(PointerModel { clear_deadline: None, ..calm.pointer });
        let cell = match self.grid(pane) {
            Some(grid) => grid_cell(grid, mouse.column, mouse.row),
            None => None,
        };
        match cell {
            None => ready.unselected(),
            Some(cell) => {
                let focused = ready.focused(Focus::Terminal);
                match self.metrics(pane) {
                    None => focused,
                    Some(metrics) => {
                        let pressed = metrics.under(cell);
                        let click = PaneClick { pane, cell: pressed, at: now };
                        let taken = focused.click_taken(click);
                        if doubles(self.pointer.last_click, click) && self.word(pane, cell) is Some {
                            let (start, end, text) = self.word(pane, cell)->0;
                            taken.word_copied(pane, pressed, start, end, text, now)
                        } else {
                            taken.with_selection(Some(Selection::pressed(pane, pressed)))
                        }
                    },
                }
            },
        }
    }

    /// The application after a left drag: the selection follows the pointer, and
    /// at the upper or lower edge, or beyond it, the view scrolls along.
    #[verifier::opaque]
    pub open spec fn left_dragged(self, pane: PaneId, mouse: MouseEvent, now: Moment) -> AppModel {
        let fresh = self.with_pointer(PointerModel { last_click: None, ..self.pointer });
        if !self.selecting(pane) || self.grid(pane) is None {
            fresh
        } else {
            let grid = self.grid(pane)->0;
            let moved = fresh.selection_extended(pane, grid, mouse.column, mouse.row);
            let top = grid.y as int;
            let bottom = grid.y + grid.height - 1;
            let up = Some(Autoscroll { up: true, column: mouse.column, row: mouse.row });
            let down = Some(Autoscroll { up: false, column: mouse.column, row: mouse.row });
            if !(moved.pointer.selection matches Some(active) && active.phase
                == SelectionPhase::Dragging) {
                moved.autoscrolling(None, now)
            } else if mouse.row < top {
                moved.scrolled_by(pane, (top - mouse.row) as usize, true).selection_extended(
                    pane,
                    grid,
                    mouse.column,
                    mouse.row,
                ).autoscrolling(up, now)
            } else if mouse.row > bottom {
                moved.scrolled_by(pane, (mouse.row - bottom) as usize, false).selection_extended(
                    pane,
                    grid,
                    mouse.column,
                    mouse.row,
                ).autoscrolling(down, now)
            } else if mouse.row == top {
                moved.autoscrolling(up, now)
            } else if mouse.row == bottom {
                moved.autoscrolling(down, now)
            } else {
                moved.autoscrolling(None, now)
            }
        }
    }

    /// The text that a selection covers in a pane.
    pub open spec fn covered(self, pane: PaneId, active: Selection) -> Option<Seq<char>> {
        match pane_of(self.panes, pane) {
            Some(found) => selected_text(found.screen, active.ordered().0, active.ordered().1),
            None => None,
        }
    }

    /// The application after the left button was released: a click clears the
    /// selection, a copied word stays highlighted, a drag copies what it covers.
    #[verifier::opaque]
    pub open spec fn left_released(self, pane: PaneId, now: Moment) -> AppModel {
        let calm = self.autoscrolling(None, now);
        match self.pointer.selection {
            None => calm,
            Some(active) => if active.pane != pane || active.phase == SelectionPhase::Pressed {
                calm.with_selection(None)
            } else if active.phase == SelectionPhase::Dragging {
                let read = calm.with_selection(None);
                match self.covered(pane, active) {
                    Some(text) => if text.len() > 0 {
                        AppModel {
                            feedback: read.feedback.toasted(ToastText::Copied, Tone::Success, now),
                            pointer: PointerModel { clipboard: Some(text), ..read.pointer },
                            ..read
                        }
                    } else {
                        read
                    },
                    None => read,
                }
            } else {
                calm
            },
        }
    }

    /// The application after a step of the wheel over the main area: a child on
    /// the alternate screen receives cursor keys; anything else scrolls, and a
    /// selection being made keeps extending.
    #[verifier::opaque]
    pub open spec fn wheeled(self, pane: PaneId, mouse: MouseEvent, up: bool) -> AppModel {
        if !self.main_area().holds(mouse.column, mouse.row) {
            self
        } else if !self.selecting(pane) && pane_of(self.panes, pane) is None {
            self
        } else if !self.selecting(pane) && pane_of(
            self.panes,
            pane,
        )->0.screen.modes.alternate_screen {
            let found = pane_of(self.panes, pane)->0;
            if found.life.alive {
                AppModel {
                    outbox: self.outbox + repeated(
                        pane,
                        wheel_bytes(up, found.screen.modes.application_cursor),
                        WHEEL_SCROLL_LINES as nat,
                    ),
                    ..self
                }
            } else {
                self
            }
        } else {
            let scrolled = self.scrolled_by(pane, WHEEL_SCROLL_LINES, up);
            if self.selecting(pane) && scrolled.grid(pane) is Some {
                scrolled.selection_extended(pane, scrolled.grid(pane)->0, mouse.column, mouse.row)
            } else {
                scrolled
            }
        }
    }

    /// The application with the pointer shape that the hovered region wants.
    pub open spec fn pointer_shaped(self, mouse: MouseEvent) -> AppModel {
        let over_text = match self.roster.selected_id() {
            Some(pane) => !self.wants_mouse(pane) && (self.grid(pane) matches Some(grid)
                && grid.holds(mouse.column, mouse.row)),
            None => false,
        };
        let shape = if over_text {
            PointerShape::Text
        } else {
            PointerShape::Default
        };
        if shape != self.pointer.shape {
            self.with_pointer(PointerModel { shape, pending_shape: Some(shape), ..self.pointer })
        } else {
            self
        }
    }

    /// The application that passes pointer input on to a child that asked for
    /// it.
    pub open spec fn mouse_forwarded(self, pane: PaneId, mouse: MouseEvent) -> AppModel {
        match pane_of(self.panes, pane) {
            None => self,
            Some(found) => match relative_position(
                self.main_area(),
                mouse.column,
                mouse.row,
                found.screen,
            ) {
                None => self,
                Some((column, row)) => match mouse_bytes(
                    mouse,
                    column,
                    row,
                    found.screen.modes.mouse_mode(),
                    found.screen.modes.mouse_encoding(),
                ) {
                    None => self,
                    Some(bytes) => if found.life.alive {
                        self.sent(EffectModel::Write(pane, bytes))
                    } else {
                        self
                    },
                },
            },
        }
    }

    /// The application after a gesture in the selected pane.
    #[verifier::opaque]
    pub open spec fn pane_gesture(self, pane: PaneId, mouse: MouseEvent, now: Moment) -> AppModel {
        if self.wants_mouse(pane) {
            let cleared = self.unselected();
            let attached = if mouse.kind is Down && self.main_area().holds(
                mouse.column,
                mouse.row,
            ) {
                cleared.focused(Focus::Terminal)
            } else {
                cleared
            };
            attached.mouse_forwarded(pane, mouse)
        } else {
            match mouse.kind {
                MouseEventKind::Down(MouseButton::Left) => self.left_pressed(pane, mouse, now),
                MouseEventKind::Drag(MouseButton::Left) => self.left_dragged(pane, mouse, now),
                MouseEventKind::Up(MouseButton::Left) => self.left_released(pane, now),
                MouseEventKind::ScrollUp => self.wheeled(pane, mouse, true),
                MouseEventKind::ScrollDown => self.wheeled(pane, mouse, false),
                _ => self,
            }
        }
    }

    /// Whether a press dismisses a message that is showing.
    pub open spec fn dismisses(self, mouse: MouseEvent, facts: PointerFacts) -> bool {
        mouse.kind == MouseEventKind::Down(MouseButton::Left) && ((self.feedback.notice is Some
            && region_holds(facts.notice_region, mouse.column, mouse.row)) || (
        self.feedback.toast is Some && region_holds(facts.toast_region, mouse.column, mouse.row)))
    }

    /// The application after pointer input. A press that dismisses a message
    /// swallows the rest of its gesture; an overlay swallows everything else.
    #[verifier::opaque]
    pub open spec fn mouse_handled(
        self,
        mouse: MouseEvent,
        facts: PointerFacts,
        now: Moment,
    ) -> AppModel {
        let left_up = mouse.kind == MouseEventKind::Up(MouseButton::Left);
        let left_down = mouse.kind == MouseEventKind::Down(MouseButton::Left);
        if self.pointer.dismissing {
            if left_up {
                self.with_pointer(PointerModel { dismissing: false, ..self.pointer })
            } else {
                self
            }
        } else if self.dismisses(mouse, facts) {
            AppModel {
                feedback: if self.feedback.notice is Some && region_holds(
                    facts.notice_region,
                    mouse.column,
                    mouse.row,
                ) {
                    self.feedback.unnoted()
                } else {
                    self.feedback.untoasted()
                },
                pointer: PointerModel { dismissing: true, ..self.pointer },
                ..self
            }
        } else if self.overlay is Some {
            self.unselected()
        } else {
            let shaped = self.pointer_shaped(mouse);
            if left_down && frame_areas(self.canvas.area).sidebar.holds(mouse.column, mouse.row) {
                shaped.unselected().sidebar_pressed(facts.sidebar_row)
            } else {
                match self.roster.selected_id() {
                    None => shaped,
                    Some(pane) => shaped.pane_gesture(pane, mouse, now),
                }
            }
        }
    }

    /// When the selection next needs attention.
    pub open spec fn selection_deadline(self) -> Option<Moment> {
        earliest(self.pointer.autoscroll_deadline, self.pointer.clear_deadline)
    }

    /// The pane and the metrics of a drag that autoscrolls, unless it has reached
    /// the edge of the buffer.
    pub open spec fn autoscroll_step(self) -> Option<(PaneId, Autoscroll)> {
        match self.pointer.autoscroll {
            None => None,
            Some(autoscroll) => match self.pointer.selection {
                None => None,
                Some(active) => if active.phase != SelectionPhase::Dragging {
                    None
                } else {
                    match self.metrics(active.pane) {
                        None => None,
                        Some(metrics) => if autoscroll.up && metrics.offset >= metrics.len
                            || !autoscroll.up && metrics.offset == 0 {
                            None
                        } else {
                            Some((active.pane, autoscroll))
                        },
                    }
                },
            },
        }
    }

    /// The application after one step of its autoscroll.
    pub open spec fn autoscroll_ticked(self, now: Moment) -> AppModel {
        match self.autoscroll_step() {
            None => self.autoscrolling(None, now),
            Some((pane, autoscroll)) => {
                let scrolled = self.scrolled_by(pane, 1, autoscroll.up);
                let moved = match scrolled.grid(pane) {
                    Some(grid) => scrolled.selection_extended(
                        pane,
                        grid,
                        autoscroll.column,
                        autoscroll.row,
                    ),
                    None => scrolled,
                };
                moved.with_pointer(
                    PointerModel {
                        autoscroll_deadline: Some(now.later(SELECTION_AUTOSCROLL_MILLIS)),
                        ..moved.pointer
                    },
                )
            },
        }
    }

    /// The application whose copied word is no longer highlighted, if its time
    /// has come.
    pub open spec fn highlight_expired(self, now: Moment) -> AppModel {
        if is_due(self.pointer.clear_deadline, now) {
            self.with_pointer(
                PointerModel { clear_deadline: None, selection: None, ..self.pointer },
            )
        } else {
            self
        }
    }

    /// The application with its selection timers advanced.
    pub open spec fn selection_advanced(self, now: Moment) -> AppModel {
        let expired = self.highlight_expired(now);
        if is_due(self.pointer.autoscroll_deadline, now) {
            expired.autoscroll_ticked(now)
        } else {
            expired
        }
    }

    /// The span of the selection in the view.
    pub open spec fn selection_view(self) -> Option<(GridCell, GridCell)> {
        match self.pointer.selection {
            None => None,
            Some(active) => if self.roster.selected_id() != Some(active.pane) {
                None
            } else {
                match pane_of(self.panes, active.pane) {
                    None => None,
                    Some(found) => active.seen(
                        metrics_of(found.screen).top(),
                        found.screen.rows,
                        found.screen.cols,
                    ),
                }
            },
        }
    }
}

/// Returns the absolute rectangle of a screen's visible cells.
pub fn screen_grid(screen: &TerminalEmulator, main: Rect) -> (grid: Option<Rect>)
    ensures
        grid == grid_of(screen@, main),
{
    let (rows, cols): (u16, u16) = screen.size();
    let inner_width: u16 = main.width.saturating_sub(2);
    let inner_height: u16 = main.height.saturating_sub(2);
    let width: u16 = if inner_width <= cols {
        inner_width
    } else {
        cols
    };
    let height: u16 = if inner_height <= rows {
        inner_height
    } else {
        rows
    };
    if width > 0 && height > 0 {
        Some(
            Rect::new(
                main.x.saturating_add(BORDER_THICKNESS),
                main.y.saturating_add(BORDER_THICKNESS),
                width,
                height,
            ),
        )
    } else {
        None
    }
}

/// Maps an outer-terminal mouse coordinate into the child terminal grid.
pub fn relative_mouse_position(
    area: Rect,
    column: u16,
    row: u16,
    screen: &TerminalEmulator,
) -> (position: Option<(u16, u16)>)
    ensures
        position == relative_position(area, column, row, screen@),
{
    let left: u16 = area.x.saturating_add(BORDER_THICKNESS);
    let top: u16 = area.y.saturating_add(BORDER_THICKNESS);
    if column < left || row < top {
        return None;
    }
    let (rows, cols): (u16, u16) = screen.size();
    if column - left < cols && row - top < rows {
        Some((column - left, row - top))
    } else {
        None
    }
}

/// Returns the columns and the text of the word under a cell of the view.
fn read_word(screen: &TerminalEmulator, cell: GridCell) -> (word: Option<(u16, u16, String)>)
    ensures
        match word {
            Some((start, end, text)) => word_under(screen@, cell) == Some((start, end, text@)),
            None => word_under(screen@, cell) is None,
        },
{
    let (_, columns): (u16, u16) = screen.size();
    let row_text: String = screen.contents_between(cell.row, 0, cell.row, columns);
    match word_bounds(&row_text, cell.column) {
        None => None,
        Some((start, end)) => {
            let beyond: u16 = end.saturating_add(1);
            let last: u16 = if beyond <= columns {
                beyond
            } else {
                columns
            };
            let text: String = screen.contents_between(cell.row, start, cell.row, last);
            if text.as_str().unicode_len() == 0 {
                None
            } else {
                Some((start, end, text))
            }
        },
    }
}

impl App {
    /// Returns the rectangle of a pane's visible cells.
    pub fn pane_grid(&self, pane: PaneId) -> (grid: Option<Rect>)
        ensures
            grid == self@.grid(pane),
    {
        match self.panes.get(pane) {
            Some(found) => screen_grid(&found.screen, areas(self.canvas.area).main),
            None => None,
        }
    }

    /// Returns where the pane's viewport sits in its scrollback.
    pub fn pane_scroll_metrics(&self, pane: PaneId) -> (metrics: Option<ScrollMetrics>)
        ensures
            metrics == self@.metrics(pane),
    {
        match self.panes.get(pane) {
            Some(found) => Some(
                ScrollMetrics { offset: found.screen.scrollback(), len: found.screen.history_len() },
            ),
            None => None,
        }
    }

    /// Whether the pane's live child explicitly enabled mouse reporting.
    pub fn pane_wants_mouse(&self, pane: PaneId) -> (wants: bool)
        ensures
            wants == self@.wants_mouse(pane),
    {
        match self.panes.get(pane) {
            Some(found) => found.life.alive && found.screen.mouse_protocol_mode()
                != MouseProtocolMode::Off,
            None => false,
        }
    }

    /// Moves the pane's scrollback offset by `lines`.
    pub fn scroll_by(&mut self, pane: PaneId, lines: usize, up: bool)
        ensures
            final(self)@ == old(self)@.scrolled_by(pane, lines, up),
    {
        let offset: usize = match self.panes.get(pane) {
            Some(found) => found.screen.scrollback(),
            None => return,
        };
        let moved: usize = if up {
            offset.saturating_add(lines)
        } else {
            offset.saturating_sub(lines)
        };
        self.panes.scroll_to(pane, moved);
    }

    /// Replaces the autoscroll state, arming its tick when one starts and
    /// disarming it when it ends.
    pub fn set_autoscroll(&mut self, autoscroll: Option<Autoscroll>, now: Moment)
        ensures
            final(self)@ == old(self)@.autoscrolling(autoscroll, now),
    {
        if autoscroll.is_none() {
            self.pointer.autoscroll_deadline = None;
        } else if self.pointer.autoscroll.is_none() {
            self.pointer.autoscroll_deadline = Some(now.after_millis(SELECTION_AUTOSCROLL_MILLIS));
        }
        self.pointer.autoscroll = autoscroll;
    }

    /// Moves the selection head to the pane cell nearest the pointer.
    pub fn extend_selection_to(&mut self, pane: PaneId, grid: Rect, column: u16, row: u16)
        ensures
            final(self)@ == old(self)@.selection_extended(pane, grid, column, row),
    {
        let cell: GridCell = match nearest_cell(grid, column, row) {
            Some(cell) => cell,
            None => return,
        };
        let metrics: ScrollMetrics = match self.pane_scroll_metrics(pane) {
            Some(metrics) => metrics,
            None => return,
        };
        if let Some(active) = self.pointer.selection {
            let mut moved: Selection = active;
            moved.extend_to(metrics.buffer_cell(cell));
            self.pointer.selection = Some(moved);
        }
    }

    /// Whether a selection of a pane is being made.
    fn is_selecting(&self, pane: PaneId) -> (selecting: bool)
        ensures
            selecting == self@.selecting(pane),
    {
        match self.pointer.selection {
            Some(active) => active.pane == pane && active.is_in_progress(),
            None => false,
        }
    }

    /// Focuses the sidebar on any click into it and, when the click lands on a
    /// row, selects that row the way keyboard navigation would.
    pub fn handle_sidebar_press(&mut self, clicked: Option<SidebarSelection>)
        ensures
            final(self)@ == old(self)@.sidebar_pressed(clicked),
    {
        self.focus = Focus::Sidebar;
        match clicked {
            None => {},
            Some(SidebarSelection::Process(index)) => {
                self.catalog.cursor = None;
                self.workspace.select_at(index);
            },
            Some(SidebarSelection::Project(index)) => {
                self.catalog.cursor = Some(index);
            },
        }
    }

    /// Consumes a double-click candidate: true when this press matches the
    /// previous one closely enough.
    pub fn take_double_click(&mut self, click: PaneClick) -> (matched: bool)
        ensures
            matched == doubles(old(self)@.pointer.last_click, click),
            final(self)@ == old(self)@.click_taken(click),
    {
        let matched: bool = match self.pointer.last_click {
            Some(last) => {
                let close: bool = if click.at.nanos >= last.at.nanos {
                    click.at.nanos - last.at.nanos <= PANE_DOUBLE_CLICK_MILLIS * 1_000_000
                } else {
                    true
                };
                last.pane == click.pane && last.cell == click.cell && close
            },
            None => false,
        };
        self.pointer.last_click = if matched {
            None
        } else {
            Some(click)
        };
        matched
    }

    /// Copies the token under a double click, leaving a short-lived highlight as
    /// confirmation. Returns whether text was copied.
    pub fn copy_word_at(
        &mut self,
        pane: PaneId,
        cell: GridCell,
        pressed: BufferCell,
        now: Moment,
    ) -> (copied: bool)
        ensures
            copied == (old(self)@.word(pane, cell) is Some),
            final(self)@ == match old(self)@.word(pane, cell) {
                Some((start, end, text)) => old(self)@.word_copied(
                    pane,
                    pressed,
                    start,
                    end,
                    text,
                    now,
                ),
                None => old(self)@,
            },
    {
        let word: Option<(u16, u16, String)> = match self.panes.get(pane) {
            Some(found) => read_word(&found.screen, cell),
            None => None,
        };
        match word {
            None => false,
            Some((start, end, text)) => {
                self.pointer.clipboard = Some(text);
                self.feedback.show_toast(ToastText::Copied, Tone::Success, now);
                self.pointer.selection = Some(
                    Selection::word(
                        pane,
                        BufferCell { row: pressed.row, column: start },
                        BufferCell { row: pressed.row, column: end },
                    ),
                );
                self.pointer.clear_deadline = Some(now.after_millis(PANE_COPY_HIGHLIGHT_MILLIS));
                true
            },
        }
    }

    /// A left press in the pane: focuses the terminal, detects a double-click
    /// word copy, and otherwise anchors a new selection at the pressed cell.
    pub fn handle_left_press(&mut self, pane: PaneId, mouse: MouseEvent, now: Moment)
        ensures
            final(self)@ == old(self)@.left_pressed(pane, mouse, now),
    {
        proof {
            reveal(AppModel::left_pressed);
        }
        self.set_autoscroll(None, now);
        self.pointer.clear_deadline = None;
        let cell: GridCell = match self.pane_grid(pane) {
            Some(grid) => match cell_at(grid, mouse.column, mouse.row) {
                Some(cell) => cell,
                None => {
                    self.clear_selection();
                    return;
                },
            },
            None => {
                self.clear_selection();
                return;
            },
        };
        self.focus = Focus::Terminal;
        let metrics: ScrollMetrics = match self.pane_scroll_metrics(pane) {
            Some(metrics) => metrics,
            None => return,
        };
        let pressed: BufferCell = metrics.buffer_cell(cell);
        let click: PaneClick = PaneClick { pane, cell: pressed, at: now };
        if self.take_double_click(click) {
            if self.copy_word_at(pane, cell, pressed, now) {
                return;
            }
        }
        self.pointer.selection = Some(Selection::anchored(pane, pressed));
    }

    /// Extends the held selection toward the pointer, driving the edge
    /// autoscroll zones when the drag reaches or leaves the pane vertically.
    pub fn handle_left_drag(&mut self, pane: PaneId, mouse: MouseEvent, now: Moment)
        ensures
            final(self)@ == old(self)@.left_dragged(pane, mouse, now),
    {
        proof {
            reveal(AppModel::left_dragged);
        }
        self.pointer.last_click = None;
        if !self.is_selecting(pane) {
            return;
        }
        let grid: Rect = match self.pane_grid(pane) {
            Some(grid) => grid,
            None => return,
        };
        self.extend_selection_to(pane, grid, mouse.column, mouse.row);
        let dragging: bool = match self.pointer.selection {
            Some(active) => active.is_dragging(),
            None => false,
        };
        if !dragging {
            self.set_autoscroll(None, now);
            return;
        }
        let up: Option<Autoscroll> = Some(
            Autoscroll { up: true, column: mouse.column, row: mouse.row },
        );
        let down: Option<Autoscroll> = Some(
            Autoscroll { up: false, column: mouse.column, row: mouse.row },
        );
        let row: u32 = mouse.row as u32;
        let top: u32 = grid.y as u32;
        let bottom: u32 = grid.y as u32 + grid.height as u32 - 1;
        if row < top {
            self.scroll_by(pane, edge_scroll_lines(grid.y - mouse.row), true);
            self.extend_selection_to(pane, grid, mouse.column, mouse.row);
            self.set_autoscroll(up, now);
        } else if row > bottom {
            self.scroll_by(pane, edge_scroll_lines((row - bottom) as u16), false);
            self.extend_selection_to(pane, grid, mouse.column, mouse.row);
            self.set_autoscroll(down, now);
        } else if row == top {
            self.set_autoscroll(up, now);
        } else if row == bottom {
            self.set_autoscroll(down, now);
        } else {
            self.set_autoscroll(None, now);
        }
    }

    /// Reads the selected text of a pane.
    pub fn extract_selection_text(&self, pane: PaneId, active: Selection) -> (text: Option<String>)
        ensures
            opt_text(text) == self@.covered(pane, active),
    {
        let (start, end): (BufferCell, BufferCell) = active.span();
        match self.panes.get(pane) {
            Some(found) => found.screen.extract_span(start, end),
            None => None,
        }
    }

    /// Completes the held gesture: a bare click clears, a finalized word copy
    /// keeps its feedback highlight, and a drag copies the spanned text and
    /// clears.
    pub fn handle_left_release(&mut self, pane: PaneId, now: Moment)
        ensures
            final(self)@ == old(self)@.left_released(pane, now),
    {
        proof {
            reveal(AppModel::left_released);
        }
        self.set_autoscroll(None, now);
        let active: Selection = match self.pointer.selection {
            Some(active) => active,
            None => return,
        };
        if active.pane != pane || active.is_click() {
            self.pointer.selection = None;
            return;
        }
        if active.is_dragging() {
            if let Some(text) = self.extract_selection_text(pane, active) {
                if text.as_str().unicode_len() > 0 {
                    self.pointer.clipboard = Some(text);
                    self.feedback.show_toast(ToastText::Copied, Tone::Success, now);
                }
            }
            self.pointer.selection = None;
        }
    }

    /// The wheel scrolls the pane: an in-progress selection keeps extending
    /// under it, an alternate-screen child receives cursor keys, and otherwise
    /// the scrollback offset moves.
    pub fn handle_wheel(&mut self, pane: PaneId, mouse: MouseEvent, up: bool)
        ensures
            final(self)@ == old(self)@.wheeled(pane, mouse, up),
    {
        proof {
            reveal(AppModel::wheeled);
        }
        if !areas(self.canvas.area).main.contains(mouse.column, mouse.row) {
            return;
        }
        let selecting: bool = self.is_selecting(pane);
        if !selecting {
            let (alive, alternate, application): (bool, bool, bool) = match self.panes.get(pane) {
                Some(found) => (
                    found.life.alive,
                    found.screen.alternate_screen(),
                    found.screen.application_cursor(),
                ),
                None => return,
            };
            if alternate {
                if alive {
                    self.write_wheel(pane, up, application);
                }
                return;
            }
        }
        self.scroll_by(pane, WHEEL_SCROLL_LINES, up);
        if selecting {
            if let Some(grid) = self.pane_grid(pane) {
                self.extend_selection_to(pane, grid, mouse.column, mouse.row);
            }
        }
    }

    /// Writes the cursor keys of one step of the wheel.
    fn write_wheel(&mut self, pane: PaneId, up: bool, application: bool)
        ensures
            final(self)@ == (AppModel {
                outbox: old(self)@.outbox + repeated(
                    pane,
                    wheel_bytes(up, application),
                    WHEEL_SCROLL_LINES as nat,
                ),
                ..old(self)@
            }),
    {
        let mut i: usize = 0;
        assert(self@.outbox =~= old(self)@.outbox + repeated(
            pane,
            wheel_bytes(up, application),
            0,
        ));
        while i < WHEEL_SCROLL_LINES
            invariant
                i <= WHEEL_SCROLL_LINES,
                self@ == (AppModel {
                    outbox: old(self)@.outbox + repeated(
                        pane,
                        wheel_bytes(up, application),
                        i as nat,
                    ),
                    ..old(self)@
                }),
            decreases WHEEL_SCROLL_LINES - i,
        {
            let bytes: Vec<u8> = wheel_arrow(up, application);
            self.send(Effect::Write { pane, bytes });
            i = i + 1;
            assert(self@.outbox =~= old(self)@.outbox + repeated(
                pane,
                wheel_bytes(up, application),
                i as nat,
            ));
        }
    }

    /// Tracks which pointer shape the hovered region wants and queues the update
    /// when it changes: an I-beam over selectable pane text, the regular arrow
    /// everywhere else.
    pub fn refresh_pointer_shape(&mut self, mouse: MouseEvent)
        ensures
            final(self)@ == old(self)@.pointer_shaped(mouse),
    {
        let over_text: bool = match self.selected_pane() {
            Some(pane) => if self.pane_wants_mouse(pane) {
                false
            } else {
                match self.pane_grid(pane) {
                    Some(grid) => grid.contains(mouse.column, mouse.row),
                    None => false,
                }
            },
            None => false,
        };
        let shape: PointerShape = if over_text {
            PointerShape::Text
        } else {
            PointerShape::Default
        };
        if shape != self.pointer.shape {
            self.pointer.shape = shape;
            self.pointer.pending_shape = Some(shape);
        }
    }

    /// Forwards pointer input to the terminal that requested it.
    pub fn forward_mouse_to_pane(&mut self, pane: PaneId, mouse: MouseEvent)
        ensures
            final(self)@ == old(self)@.mouse_forwarded(pane, mouse),
    {
        let main: Rect = areas(self.canvas.area).main;
        let bytes: Option<Vec<u8>> = match self.panes.get(pane) {
            None => None,
            Some(found) => match relative_mouse_position(
                main,
                mouse.column,
                mouse.row,
                &found.screen,
            ) {
                None => None,
                Some((column, row)) => if found.life.alive {
                    encode_mouse(
                        mouse,
                        column,
                        row,
                        found.screen.mouse_protocol_mode(),
                        found.screen.mouse_protocol_encoding(),
                    )
                } else {
                    None
                },
            },
        };
        if let Some(bytes) = bytes {
            self.send(Effect::Write { pane, bytes });
        }
    }

    /// Handles a gesture in the selected pane.
    fn handle_pane_gesture(&mut self, pane: PaneId, mouse: MouseEvent, now: Moment)
        ensures
            final(self)@ == old(self)@.pane_gesture(pane, mouse, now),
    {
        proof {
            reveal(AppModel::pane_gesture);
        }
        if self.pane_wants_mouse(pane) {
            self.clear_selection();
            let down: bool = match mouse.kind {
                MouseEventKind::Down(_) => true,
                _ => false,
            };
            if down && areas(self.canvas.area).main.contains(mouse.column, mouse.row) {
                self.focus = Focus::Terminal;
            }
            self.forward_mouse_to_pane(pane, mouse);
            return;
        }
        match mouse.kind {
            MouseEventKind::Down(MouseButton::Left) => self.handle_left_press(pane, mouse, now),
            MouseEventKind::Drag(MouseButton::Left) => self.handle_left_drag(pane, mouse, now),
            MouseEventKind::Up(MouseButton::Left) => self.handle_left_release(pane, now),
            MouseEventKind::ScrollUp => self.handle_wheel(pane, mouse, true),
            MouseEventKind::ScrollDown => self.handle_wheel(pane, mouse, false),
            _ => {},
        }
    }

    /// Routes pointer input: sidebar rows and panes focus on click, a child that
    /// requested mouse reports receives events directly, the wheel scrolls, and
    /// a left drag selects pane text.
    pub fn handle_mouse(&mut self, mouse: MouseEvent, facts: PointerFacts, now: Moment)
        ensures
            final(self)@ == old(self)@.mouse_handled(mouse, facts, now),
    {
        proof {
            reveal(AppModel::mouse_handled);
        }
        let left_up: bool = match mouse.kind {
            MouseEventKind::Up(MouseButton::Left) => true,
            _ => false,
        };
        let left_down: bool = match mouse.kind {
            MouseEventKind::Down(MouseButton::Left) => true,
            _ => false,
        };
        if self.pointer.dismissing {
            if left_up {
                self.pointer.dismissing = false;
            }
            return;
        }
        if left_down && self.feedback.dismiss_toast_at(
            facts.notice_region,
            facts.toast_region,
            mouse.column,
            mouse.row,
        ) {
            self.pointer.dismissing = true;
            return;
        }
        if self.overlay.is_some() {
            self.clear_selection();
            return;
        }
        self.refresh_pointer_shape(mouse);
        if left_down && areas(self.canvas.area).sidebar.contains(mouse.column, mouse.row) {
            self.clear_selection();
            self.handle_sidebar_press(facts.sidebar_row);
            return;
        }
        if let Some(pane) = self.selected_pane() {
            self.handle_pane_gesture(pane, mouse, now);
        }
    }

    /// The next moment the selection needs servicing: an autoscroll tick or a
    /// word-highlight expiry.
    pub fn next_selection_deadline(&self) -> (deadline: Option<Moment>)
        ensures
            deadline == self@.selection_deadline(),
    {
        earliest_of(self.pointer.autoscroll_deadline, self.pointer.clear_deadline)
    }

    /// One autoscroll step: scroll a line toward the drag direction, stop at the
    /// buffer edge, and re-extend the selection at the pointer's last known spot.
    pub fn tick_autoscroll(&mut self, now: Moment) -> (redraw: bool)
        ensures
            redraw == (old(self)@.autoscroll_step() is Some),
            final(self)@ == old(self)@.autoscroll_ticked(now),
    {
        let autoscroll: Autoscroll = match self.pointer.autoscroll {
            Some(autoscroll) => autoscroll,
            None => {
                self.pointer.autoscroll_deadline = None;
                return false;
            },
        };
        let pane: Option<PaneId> = match self.pointer.selection {
            Some(active) => if active.is_dragging() {
                Some(active.pane)
            } else {
                None
            },
            None => None,
        };
        let pane: PaneId = match pane {
            Some(pane) => pane,
            None => {
                self.set_autoscroll(None, now);
                return false;
            },
        };
        let metrics: ScrollMetrics = match self.pane_scroll_metrics(pane) {
            Some(metrics) => metrics,
            None => {
                self.set_autoscroll(None, now);
                return false;
            },
        };
        let at_edge: bool = if autoscroll.up {
            metrics.offset >= metrics.len
        } else {
            metrics.offset == 0
        };
        if at_edge {
            self.set_autoscroll(None, now);
            return false;
        }
        self.scroll_by(pane, 1, autoscroll.up);
        if let Some(grid) = self.pane_grid(pane) {
            self.extend_selection_to(pane, grid, autoscroll.column, autoscroll.row);
        }
        self.pointer.autoscroll_deadline = Some(now.after_millis(SELECTION_AUTOSCROLL_MILLIS));
        true
    }

    /// Advances selection timers: expires the word-copy highlight and steps an
    /// active edge autoscroll. Returns whether a redraw is needed.
    pub fn advance_selection(&mut self, now: Moment) -> (redraw: bool)
        ensures
            redraw == (is_due(old(self)@.pointer.clear_deadline, now) || (is_due(
                old(self)@.pointer.autoscroll_deadline,
                now,
            ) && old(self)@.highlight_expired(now).autoscroll_step() is Some)),
            final(self)@ == old(self)@.selection_advanced(now),
    {
        let mut redraw: bool = false;
        if deadline_due(self.pointer.clear_deadline, now) {
            self.pointer.clear_deadline = None;
            self.pointer.selection = None;
            redraw = true;
        }
        if deadline_due(self.pointer.autoscroll_deadline, now) {
            let ticked: bool = self.tick_autoscroll(now);
            redraw = redraw || ticked;
        }
        redraw
    }

    /// Recomputes the viewport span of the active selection for the next frame.
    pub fn refresh_selection_view(&mut self)
        ensures
            final(self)@ == old(self)@.with_pointer(
                PointerModel { view: old(self)@.selection_view(), ..old(self)@.pointer },
            ),
    {
        self.pointer.view = None;
        let active: Selection = match self.pointer.selection {
            Some(active) => active,
            None => return,
        };
        match self.selected_pane() {
            Some(pane) => {
                if pane != active.pane {
                    return;
                }
            },
            None => return,
        }
        if let Some(metrics) = self.pane_scroll_metrics(active.pane) {
            if let Some(found) = self.panes.get(active.pane) {
                let (rows, columns): (u16, u16) = found.screen.size();
                let view: Option<(GridCell, GridCell)> = active.viewport_span(
                    metrics.viewport_top(),
                    rows,
                    columns,
                );
                self.pointer.view = view;
            }
        }
    }

    /// Takes the text queued for the host clipboard.
    pub fn take_pending_clipboard(&mut self) -> (text: Option<String>)
        ensures
            opt_text(text) == old(self)@.pointer.clipboard,
            final(self)@ == old(self)@.with_pointer(
                PointerModel { clipboard: None, ..old(self)@.pointer },
            ),
    {
        self.pointer.clipboard.take()
    }

    /// Takes the pointer shape that the host has yet to show.
    pub fn take_pending_pointer_shape(&mut self) -> (shape: Option<PointerShape>)
        ensures
            shape == old(self)@.pointer.pending_shape,
            final(self)@ == old(self)@.with_pointer(
                PointerModel { pending_shape: None, ..old(self)@.pointer },
            ),
    {
        self.pointer.pending_shape.take()
    }
}

/// A double click uses its first press up: three quick presses on one cell are a
/// press, a double click and a press again.
pub proof fn a_double_click_is_used_up(app: AppModel, click: PaneClick, next: PaneClick)
    requires
        doubles(app.pointer.last_click, click),
    ensures
        app.click_taken(click).pointer.last_click is None,
        !doubles(app.click_taken(click).pointer.last_click, next),
{
}

/// A press that dismisses a message and everything up to its release reach
/// nothing beneath: no process, no focus, no selection.
pub proof fn a_dismissing_gesture_is_swallowed(
    app: AppModel,
    press: MouseEvent,
    next: MouseEvent,
    facts: PointerFacts,
    now: Moment,
)
    requires
        !app.pointer.dismissing,
        app.dismisses(press, facts),
    ensures
        ({
            let pressed = app.mouse_handled(press, facts, now);
            let after = pressed.mouse_handled(next, facts, now);
            &&& pressed.outbox == app.outbox
            &&& pressed.roster == app.roster
            &&& pressed.focus == app.focus
            &&& pressed.pointer.selection == app.pointer.selection
            &&& after.outbox == app.outbox
            &&& after.roster == app.roster
            &&& after.focus == app.focus
            &&& after.pointer.dismissing <==> next.kind != MouseEventKind::Up(MouseButton::Left)
        }),
{
    reveal(AppModel::mouse_handled);
}

/// Pointer input never reaches a child while an overlay is open.
pub proof fn overlays_swallow_the_pointer(
    app: AppModel,
    mouse: MouseEvent,
    facts: PointerFacts,
    now: Moment,
)
    requires
        app.overlay is Some,
    ensures
        app.mouse_handled(mouse, facts, now).outbox == app.outbox,
        app.mouse_handled(mouse, facts, now).overlay == app.overlay,
        app.mouse_handled(mouse, facts, now).roster == app.roster,
{
    reveal(AppModel::mouse_handled);
}

} // verus!
