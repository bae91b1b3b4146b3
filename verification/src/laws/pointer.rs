//! The mouse: what a click selects, what a drag copies, what the wheel moves, and
//! what a program that asked for the mouse is sent.

use vstd::prelude::*;
use crate::app::pointer::{PointerFacts, SidebarSelection};
use crate::app::{AppModel, Focus, PaneClick, PointerShape};
use crate::effect::EffectModel;
use crate::emulator::{MouseProtocolMode, Screen};
use crate::event::{InputEvent, RuntimeEvent};
use crate::geometry::{frame_areas, Rect};
use crate::input::{mouse_bytes, MouseButton, MouseEvent, MouseEventKind};
use crate::message::{ToastText, Tone};
use crate::moment::Moment;
use crate::pane::{a_screen_change_touches_one_pane, pane_of};
use crate::process::PaneId;
use crate::selection::{
    selected_text, BufferCell, GridCell, Selection, SelectionPhase,
};

verus! {

/// The application after a mouse event.
pub open spec fn moved(
    app: AppModel,
    mouse: MouseEvent,
    facts: PointerFacts,
    now: Moment,
) -> AppModel {
    app.handled(RuntimeEvent::Input(InputEvent::Mouse { mouse, facts }), now)
}

/// Whether nothing lies over the frame: no dialog, no notice or toast under the
/// pointer, and no gesture that dismissed one.
pub open spec fn uncovered(app: AppModel, mouse: MouseEvent, facts: PointerFacts) -> bool {
    !app.pointer.dismissing && !app.dismisses(mouse, facts) && app.overlay is None
}

/// A click in the sidebar selects the row under it, a process or another project,
/// and gives the sidebar the keys.
pub proof fn a_click_selects_the_row_under_it(
    app: AppModel,
    mouse: MouseEvent,
    facts: PointerFacts,
    now: Moment,
)
    requires
        uncovered(app, mouse, facts),
        mouse.kind == MouseEventKind::Down(MouseButton::Left),
        frame_areas(app.canvas.area).sidebar.holds(mouse.column, mouse.row),
    ensures
        ({
            let after = moved(app, mouse, facts, now);
            &&& after.focus == Focus::Sidebar
            &&& after.outbox == app.outbox
            &&& after.roster.processes == app.roster.processes
            &&& after.pointer.selection is None
            &&& facts.sidebar_row matches Some(SidebarSelection::Process(index)) ==> {
                &&& after.catalog.cursor is None
                &&& index < app.roster.processes.len() ==> after.roster.selected == index
            }
            &&& facts.sidebar_row matches Some(SidebarSelection::Project(index)) ==> {
                &&& after.catalog.cursor == Some(index)
                &&& after.roster == app.roster
            }
            &&& facts.sidebar_row is None ==> after.roster == app.roster && after.catalog
                == app.catalog
        }),
{
    reveal(AppModel::handled);
    reveal(AppModel::input_handled);
    reveal(AppModel::mouse_handled);
}

/// The screen of a pane.
pub open spec fn screen_of(app: AppModel, pane: PaneId) -> Screen {
    pane_of(app.panes, pane)->0.screen
}

/// Whether the pointer is over a cell of a pane's screen: counted from the corner
/// inside the border of the main area, and within both the area and the screen.
pub open spec fn over_cell(app: AppModel, pane: PaneId, mouse: MouseEvent, cell: GridCell) -> bool {
    let main = frame_areas(app.canvas.area).main;
    let screen = screen_of(app, pane);
    &&& mouse.column == main.x + 1 + cell.column
    &&& mouse.row == main.y + 1 + cell.row
    &&& cell.column < screen.cols && cell.column + 2 < main.width
    &&& cell.row < screen.rows && cell.row + 2 < main.height
    &&& main.x + main.width <= u16::MAX
    &&& main.y + main.height <= u16::MAX
}

/// Whether gestures in the main area are for the manager: the selected pane is
/// there, and its program did not ask for the mouse.
pub open spec fn over_text(
    app: AppModel,
    pane: PaneId,
    mouse: MouseEvent,
    facts: PointerFacts,
) -> bool {
    &&& uncovered(app, mouse, facts)
    &&& app.roster.selected_id() == Some(pane)
    &&& pane_of(app.panes, pane) is Some
    &&& !pane_of(app.panes, pane)->0.life.alive || screen_of(app, pane).modes.mouse_mode()
        == MouseProtocolMode::Off
    &&& !frame_areas(app.canvas.area).sidebar.holds(mouse.column, mouse.row)
}

/// A press on a pane gives its process the keys and starts a selection at the cell
/// under the pointer, in the line that is shown there.
pub proof fn a_press_starts_a_selection_at_its_cell(
    app: AppModel,
    pane: PaneId,
    mouse: MouseEvent,
    facts: PointerFacts,
    cell: GridCell,
    now: Moment,
)
    requires
        over_text(app, pane, mouse, facts),
        over_cell(app, pane, mouse, cell),
        mouse.kind == MouseEventKind::Down(MouseButton::Left),
        app.pointer.last_click is None,
        screen_of(app, pane).display_offset <= screen_of(app, pane).history(),
        screen_of(app, pane).lines.len() <= usize::MAX,
        screen_of(app, pane).lines.len() >= screen_of(app, pane).rows,
    ensures
        ({
            let after = moved(app, mouse, facts, now);
            let screen = screen_of(app, pane);
            let at = BufferCell {
                row: (screen.lines.len() - screen.rows - screen.display_offset + cell.row) as usize,
                column: cell.column,
            };
            &&& after.focus == Focus::Terminal
            &&& after.pointer.selection == Some(
                Selection { pane, anchor: at, head: at, phase: SelectionPhase::Pressed },
            )
            &&& after.pointer.last_click == Some(PaneClick { pane, cell: at, at: now })
            &&& after.outbox == app.outbox
            &&& after.roster == app.roster
        }),
{
    reveal(AppModel::handled);
    reveal(AppModel::input_handled);
    reveal(AppModel::mouse_handled);
    reveal(AppModel::pane_gesture);
    reveal(AppModel::left_pressed);
}

/// The end of a drag copies the text between where it began and where it ended, in
/// reading order, and says so; the selection is gone.
pub proof fn a_drag_copies_what_it_covers(
    app: AppModel,
    pane: PaneId,
    mouse: MouseEvent,
    facts: PointerFacts,
    anchor: BufferCell,
    head: BufferCell,
    now: Moment,
)
    requires
        over_text(app, pane, mouse, facts),
        mouse.kind == MouseEventKind::Up(MouseButton::Left),
        app.pointer.selection == Some(
            Selection { pane, anchor, head, phase: SelectionPhase::Dragging },
        ),
    ensures
        ({
            let after = moved(app, mouse, facts, now);
            let screen = screen_of(app, pane);
            let forward = anchor.row < head.row || anchor.row == head.row && anchor.column
                <= head.column;
            let text = if forward {
                selected_text(screen, anchor, head)
            } else {
                selected_text(screen, head, anchor)
            };
            &&& after.pointer.selection is None
            &&& after.pointer.autoscroll is None
            &&& text is Some && text->0.len() > 0 ==> after.pointer.clipboard == text
                && after.feedback.toast is Some && after.feedback.toast->0.message
                == ToastText::Copied && after.feedback.toast->0.tone == Tone::Success
            &&& text is None || text->0.len() == 0 ==> after.pointer.clipboard
                == app.pointer.clipboard && after.feedback == app.feedback
            &&& after.outbox == app.outbox
        }),
{
    reveal(AppModel::handled);
    reveal(AppModel::input_handled);
    reveal(AppModel::mouse_handled);
    reveal(AppModel::pane_gesture);
    reveal(AppModel::left_released);
}

/// A click without a drag copies nothing.
pub proof fn a_click_copies_nothing(
    app: AppModel,
    pane: PaneId,
    mouse: MouseEvent,
    facts: PointerFacts,
    now: Moment,
)
    requires
        over_text(app, pane, mouse, facts),
        mouse.kind == MouseEventKind::Up(MouseButton::Left),
        app.pointer.selection is Some,
        app.pointer.selection->0.phase == SelectionPhase::Pressed,
    ensures
        moved(app, mouse, facts, now).pointer.clipboard == app.pointer.clipboard,
        moved(app, mouse, facts, now).pointer.selection is None,
        moved(app, mouse, facts, now).feedback == app.feedback,
{
    reveal(AppModel::handled);
    reveal(AppModel::input_handled);
    reveal(AppModel::mouse_handled);
    reveal(AppModel::pane_gesture);
    reveal(AppModel::left_released);
}

/// A drag inside a pane moves the end of the selection to the cell under the
/// pointer and leaves its start.
pub proof fn a_drag_ends_at_its_cell(
    app: AppModel,
    pane: PaneId,
    mouse: MouseEvent,
    facts: PointerFacts,
    cell: GridCell,
    active: Selection,
    now: Moment,
)
    requires
        over_text(app, pane, mouse, facts),
        over_cell(app, pane, mouse, cell),
        mouse.kind == MouseEventKind::Drag(MouseButton::Left),
        app.pointer.selection == Some(active),
        active.pane == pane,
        active.phase != SelectionPhase::Finished,
        screen_of(app, pane).display_offset <= screen_of(app, pane).history(),
        screen_of(app, pane).lines.len() <= usize::MAX,
        screen_of(app, pane).lines.len() >= screen_of(app, pane).rows,
    ensures
        ({
            let after = moved(app, mouse, facts, now);
            let screen = screen_of(app, pane);
            let at = BufferCell {
                row: (screen.lines.len() - screen.rows - screen.display_offset + cell.row) as usize,
                column: cell.column,
            };
            &&& after.pointer.selection is Some
            &&& after.pointer.selection->0.head == at
            &&& after.pointer.selection->0.anchor == active.anchor
            &&& at != active.anchor ==> after.pointer.selection->0.phase
                == SelectionPhase::Dragging
            &&& after.pointer.last_click is None
            &&& after.outbox == app.outbox
            &&& after.panes == app.panes
        }),
{
    reveal(AppModel::handled);
    reveal(AppModel::input_handled);
    reveal(AppModel::mouse_handled);
    reveal(AppModel::pane_gesture);
    reveal(AppModel::left_dragged);
}

/// The wheel moves the view of a pane by three lines, up into its history and down
/// to its end, but not past either.
pub proof fn the_wheel_moves_by_three_lines(
    app: AppModel,
    pane: PaneId,
    mouse: MouseEvent,
    facts: PointerFacts,
    now: Moment,
)
    requires
        over_text(app, pane, mouse, facts),
        frame_areas(app.canvas.area).main.holds(mouse.column, mouse.row),
        !screen_of(app, pane).modes.alternate_screen,
        app.pointer.selection is None,
        screen_of(app, pane).display_offset <= screen_of(app, pane).history() <= usize::MAX,
    ensures
        ({
            let after = moved(app, mouse, facts, now);
            let before = screen_of(app, pane).display_offset as int;
            let history = screen_of(app, pane).history();
            let offset = screen_of(after, pane).display_offset as int;
            &&& mouse.kind == MouseEventKind::ScrollUp && before + 3 <= history ==> offset == before
                + 3
            &&& mouse.kind == MouseEventKind::ScrollUp && before + 3 > history ==> offset == history
            &&& mouse.kind == MouseEventKind::ScrollDown && before >= 3 ==> offset == before - 3
            &&& mouse.kind == MouseEventKind::ScrollDown && before < 3 ==> offset == 0
            &&& mouse.kind == MouseEventKind::ScrollUp || mouse.kind == MouseEventKind::ScrollDown
                ==> after.outbox == app.outbox && screen_of(after, pane).lines == screen_of(
                app,
                pane,
            ).lines
        }),
{
    reveal(AppModel::handled);
    reveal(AppModel::input_handled);
    reveal(AppModel::mouse_handled);
    reveal(AppModel::pane_gesture);
    reveal(AppModel::wheeled);
    let screen = screen_of(app, pane);
    let up = crate::app::pointer::offset_moved(screen.display_offset, 3, true);
    let down = crate::app::pointer::offset_moved(screen.display_offset, 3, false);
    a_screen_change_touches_one_pane(app.panes, pane, screen.scrolled(up), pane);
    a_screen_change_touches_one_pane(app.panes, pane, screen.scrolled(down), pane);
}

/// Over a full-screen program the wheel is sent as three cursor keys, up as `A` and
/// down as `B`, in the form that the program asked for.
pub proof fn the_wheel_moves_a_full_screen_program(
    app: AppModel,
    pane: PaneId,
    mouse: MouseEvent,
    facts: PointerFacts,
    now: Moment,
)
    requires
        over_text(app, pane, mouse, facts),
        frame_areas(app.canvas.area).main.holds(mouse.column, mouse.row),
        screen_of(app, pane).modes.alternate_screen,
        pane_of(app.panes, pane)->0.life.alive,
        app.pointer.selection is None,
        mouse.kind == MouseEventKind::ScrollUp || mouse.kind == MouseEventKind::ScrollDown,
    ensures
        ({
            let after = moved(app, mouse, facts, now);
            let letter = if mouse.kind == MouseEventKind::ScrollUp {
                0x41u8
            } else {
                0x42u8
            };
            let form = if screen_of(app, pane).modes.application_cursor {
                0x4fu8
            } else {
                0x5bu8
            };
            let key = EffectModel::Write(pane, seq![0x1bu8, form, letter]);
            &&& after.outbox == app.outbox.push(key).push(key).push(key)
            &&& after.panes == app.panes
        }),
{
    reveal(AppModel::handled);
    reveal(AppModel::input_handled);
    reveal(AppModel::mouse_handled);
    reveal(AppModel::pane_gesture);
    reveal(AppModel::wheeled);
    let up = mouse.kind == MouseEventKind::ScrollUp;
    let found = pane_of(app.panes, pane)->0;
    let bytes = crate::input::wheel_bytes(up, found.screen.modes.application_cursor);
    let key = EffectModel::Write(pane, bytes);
    assert(app.outbox + crate::app::pointer::repeated(pane, bytes, 3) =~= app.outbox.push(key).push(
        key,
    ).push(key));
}

/// A program that asked for the mouse is sent the event, for the cell of its own
/// screen that the pointer is over, and the press gives it the keys.
pub proof fn a_program_gets_the_mouse_it_asked_for(
    app: AppModel,
    pane: PaneId,
    mouse: MouseEvent,
    facts: PointerFacts,
    cell: GridCell,
    now: Moment,
)
    requires
        uncovered(app, mouse, facts),
        app.roster.selected_id() == Some(pane),
        pane_of(app.panes, pane) is Some,
        pane_of(app.panes, pane)->0.life.alive,
        screen_of(app, pane).modes.mouse_mode() != MouseProtocolMode::Off,
        !frame_areas(app.canvas.area).sidebar.holds(mouse.column, mouse.row),
        over_cell(app, pane, mouse, cell),
    ensures
        ({
            let after = moved(app, mouse, facts, now);
            let modes = screen_of(app, pane).modes;
            let bytes = mouse_bytes(
                mouse,
                cell.column,
                cell.row,
                modes.mouse_mode(),
                modes.mouse_encoding(),
            );
            &&& bytes matches Some(report) ==> after.outbox == app.outbox.push(
                EffectModel::Write(pane, report),
            )
            &&& bytes is None ==> after.outbox == app.outbox
            &&& mouse.kind is Down ==> after.focus == Focus::Terminal
            &&& !(mouse.kind is Down) ==> after.focus == app.focus
            &&& after.pointer.selection is None
            &&& after.panes == app.panes
        }),
{
    reveal(AppModel::handled);
    reveal(AppModel::input_handled);
    reveal(AppModel::mouse_handled);
    reveal(AppModel::pane_gesture);
}

/// Over the text of a pane the pointer is a text cursor, and elsewhere an arrow;
/// over a program that asked for the mouse it is an arrow too.
pub proof fn the_pointer_shows_what_it_is_over(
    app: AppModel,
    pane: PaneId,
    mouse: MouseEvent,
    facts: PointerFacts,
    cell: GridCell,
    now: Moment,
)
    requires
        uncovered(app, mouse, facts),
        app.roster.selected_id() == Some(pane),
        pane_of(app.panes, pane) is Some,
        mouse.kind == MouseEventKind::Moved,
        over_cell(app, pane, mouse, cell),
    ensures
        ({
            let after = moved(app, mouse, facts, now);
            let wanted = pane_of(app.panes, pane)->0.life.alive && screen_of(
                app,
                pane,
            ).modes.mouse_mode() != MouseProtocolMode::Off;
            &&& !wanted ==> after.pointer.shape == PointerShape::Text
            &&& wanted ==> after.pointer.shape == PointerShape::Default
            &&& app.pointer.shape != after.pointer.shape ==> after.pointer.pending_shape == Some(
                after.pointer.shape,
            )
        }),
{
    reveal(AppModel::handled);
    reveal(AppModel::input_handled);
    reveal(AppModel::mouse_handled);
    reveal(AppModel::pane_gesture);
}

/// A click on a notice dismisses the notice, and one on a toast the toast; nothing
/// else happens.
pub proof fn a_click_dismisses_what_it_hits(
    app: AppModel,
    mouse: MouseEvent,
    facts: PointerFacts,
    area: Rect,
    now: Moment,
)
    requires
        !app.pointer.dismissing,
        mouse.kind == MouseEventKind::Down(MouseButton::Left),
        area.holds(mouse.column, mouse.row),
    ensures
        ({
            let after = moved(app, mouse, facts, now);
            &&& facts.notice_region == Some(area) && app.feedback.notice is Some
                ==> after.feedback.notice is None && after.feedback.toast == app.feedback.toast
                && after.roster == app.roster && after.outbox == app.outbox
            &&& facts.notice_region is None && facts.toast_region == Some(area)
                && app.feedback.toast is Some ==> after.feedback.toast is None
                && after.feedback.notice == app.feedback.notice && after.roster == app.roster
                && after.outbox == app.outbox
        }),
{
    reveal(AppModel::handled);
    reveal(AppModel::input_handled);
    reveal(AppModel::mouse_handled);
}

/// A second click on the same cell within 350 milliseconds is a double click: it
/// copies the word under it, shows it for half a second, and says so.
pub proof fn a_double_click_copies_the_word(
    app: AppModel,
    pane: PaneId,
    mouse: MouseEvent,
    facts: PointerFacts,
    cell: GridCell,
    last: PaneClick,
    word: (u16, u16, Seq<char>),
    now: Moment,
)
    requires
        over_text(app, pane, mouse, facts),
        over_cell(app, pane, mouse, cell),
        mouse.kind == MouseEventKind::Down(MouseButton::Left),
        app.pointer.last_click == Some(last),
        last.pane == pane,
        screen_of(app, pane).display_offset <= screen_of(app, pane).history(),
        screen_of(app, pane).lines.len() <= usize::MAX,
        screen_of(app, pane).lines.len() >= screen_of(app, pane).rows,
        last.cell == (BufferCell {
            row: (screen_of(app, pane).lines.len() - screen_of(app, pane).rows - screen_of(
                app,
                pane,
            ).display_offset + cell.row) as usize,
            column: cell.column,
        }),
        crate::app::pointer::word_under(screen_of(app, pane), cell) == Some(word),
    ensures
        ({
            let after = moved(app, mouse, facts, now);
            let soon = now.nanos - last.at.nanos <= 350 * 1_000_000;
            let row = last.cell.row;
            &&& soon ==> after.pointer.clipboard == Some(word.2)
            &&& soon ==> after.pointer.selection == Some(
                Selection {
                    pane,
                    anchor: BufferCell { row, column: word.0 },
                    head: BufferCell { row, column: word.1 },
                    phase: SelectionPhase::Finished,
                },
            )
            &&& soon ==> after.pointer.clear_deadline == Some(now.later(500))
            &&& soon ==> after.feedback.toast is Some && after.feedback.toast->0.message
                == ToastText::Copied
            &&& soon ==> after.pointer.last_click is None
            &&& !soon ==> after.pointer.clipboard == app.pointer.clipboard
            &&& !soon ==> after.pointer.selection is Some && after.pointer.selection->0.phase
                == SelectionPhase::Pressed
        }),
{
    reveal(AppModel::handled);
    reveal(AppModel::input_handled);
    reveal(AppModel::mouse_handled);
    reveal(AppModel::pane_gesture);
    reveal(AppModel::left_pressed);
}

/// The highlight of a copied word goes when its time is over.
pub proof fn a_highlight_ends_on_time(app: AppModel, due: Moment, now: Moment)
    requires
        app.pointer.clear_deadline == Some(due),
        app.pointer.autoscroll_deadline is None,
    ensures
        due.nanos <= now.nanos ==> app.selection_advanced(now).pointer.selection is None
            && app.selection_advanced(now).pointer.clear_deadline is None,
        due.nanos > now.nanos ==> app.selection_advanced(now) == app,
{
}

/// A drag above a pane scrolls its history into view by as many lines as the pointer
/// is above it, and goes on while it stays there; a drag below scrolls back.
pub proof fn a_drag_past_the_edge_scrolls(
    app: AppModel,
    pane: PaneId,
    mouse: MouseEvent,
    facts: PointerFacts,
    grid: Rect,
    active: Selection,
    now: Moment,
)
    requires
        over_text(app, pane, mouse, facts),
        mouse.kind == MouseEventKind::Drag(MouseButton::Left),
        app.pointer.selection == Some(active),
        active.pane == pane,
        active.phase == SelectionPhase::Dragging,
        app.pointer.autoscroll is None,
        app.grid(pane) == Some(grid),
        mouse.row < grid.y || mouse.row >= grid.y + grid.height,
        screen_of(app, pane).display_offset <= screen_of(app, pane).history() <= usize::MAX,
    ensures
        ({
            let after = moved(app, mouse, facts, now);
            let above = mouse.row < grid.y;
            let lines = if above {
                grid.y - mouse.row
            } else {
                mouse.row - (grid.y + grid.height - 1)
            };
            let before = screen_of(app, pane).display_offset as int;
            let offset = screen_of(after, pane).display_offset as int;
            let history = screen_of(app, pane).history();
            &&& above && before + lines <= history ==> offset == before + lines
            &&& above && before + lines > history ==> offset == history
            &&& !above && before >= lines ==> offset == before - lines
            &&& !above && before < lines ==> offset == 0
            &&& after.pointer.autoscroll is Some
            &&& after.pointer.autoscroll->0.up == above
            &&& after.pointer.autoscroll_deadline == Some(now.later(30))
            &&& after.pointer.selection is Some
            &&& after.pointer.selection->0.anchor == active.anchor
        }),
{
    reveal(AppModel::handled);
    reveal(AppModel::input_handled);
    reveal(AppModel::mouse_handled);
    reveal(AppModel::pane_gesture);
    reveal(AppModel::left_dragged);
    let shaped = app.pointer_shaped(mouse);
    let screen = screen_of(app, pane);
    let above = mouse.row < grid.y;
    let lines = if above {
        (grid.y - mouse.row) as usize
    } else {
        (mouse.row - (grid.y + grid.height - 1)) as usize
    };
    let to = crate::app::pointer::offset_moved(screen.display_offset, lines, above);
    a_screen_change_touches_one_pane(app.panes, pane, screen.scrolled(to), pane);
    assert(shaped.panes == app.panes);
}

/// An autoscroll moves one line each time it is due, in its direction, and ends at
/// the end of the history.
pub proof fn an_autoscroll_moves_line_by_line(
    app: AppModel,
    active: Selection,
    up: bool,
    column: u16,
    row: u16,
    now: Moment,
)
    requires
        app.pointer.selection == Some(active),
        active.phase == SelectionPhase::Dragging,
        app.pointer.autoscroll == Some(crate::app::Autoscroll { up, column, row }),
        app.pointer.clear_deadline is None,
        app.pointer.autoscroll_deadline is Some,
        app.pointer.autoscroll_deadline->0.nanos <= now.nanos,
        pane_of(app.panes, active.pane) is Some,
        screen_of(app, active.pane).display_offset <= screen_of(app, active.pane).history()
            <= usize::MAX,
    ensures
        ({
            let after = app.selection_advanced(now);
            let before = screen_of(app, active.pane).display_offset as int;
            let history = screen_of(app, active.pane).history();
            let offset = screen_of(after, active.pane).display_offset as int;
            let ends = up && before == history || !up && before == 0;
            &&& ends ==> after.pointer.autoscroll is None && after.panes == app.panes
            &&& ends ==> after.pointer.autoscroll_deadline is None
            &&& !ends && up ==> offset == before + 1
            &&& !ends && !up ==> offset == before - 1
            &&& !ends ==> after.pointer.autoscroll_deadline == Some(now.later(30))
            &&& !ends ==> after.pointer.autoscroll == app.pointer.autoscroll
        }),
{
    let screen = screen_of(app, active.pane);
    let to = crate::app::pointer::offset_moved(screen.display_offset, 1, up);
    a_screen_change_touches_one_pane(app.panes, active.pane, screen.scrolled(to), active.pane);
}

/// The highlight is that of the selection in the selected pane, as far as it is in
/// view.
pub proof fn the_highlight_is_the_selection_in_view(app: AppModel, active: Selection)
    requires
        app.pointer.selection == Some(active),
    ensures
        ({
            let screen = screen_of(app, active.pane);
            let chosen = app.roster.selected_id() == Some(active.pane);
            &&& !chosen ==> app.selection_view() is None
            &&& chosen && pane_of(app.panes, active.pane) is Some && screen.display_offset
                <= screen.history() <= usize::MAX ==> app.selection_view() == active.seen(
                screen.view_top(),
                screen.rows,
                screen.cols,
            )
        }),
{
}

/// A press outside the text of the pane, and the wheel outside the main area, change
/// neither the screen nor the keys.
pub proof fn the_border_is_not_text(
    app: AppModel,
    pane: PaneId,
    mouse: MouseEvent,
    facts: PointerFacts,
    grid: Rect,
    now: Moment,
)
    requires
        over_text(app, pane, mouse, facts),
        app.grid(pane) == Some(grid),
    ensures
        mouse.kind == MouseEventKind::Down(MouseButton::Left) && !grid.holds(
            mouse.column,
            mouse.row,
        ) ==> {
            let after = moved(app, mouse, facts, now);
            &&& after.focus == app.focus
            &&& after.pointer.selection is None
            &&& after.panes == app.panes && after.outbox == app.outbox
        },
        (mouse.kind == MouseEventKind::ScrollUp || mouse.kind == MouseEventKind::ScrollDown)
            && !frame_areas(app.canvas.area).main.holds(mouse.column, mouse.row) ==> {
            let after = moved(app, mouse, facts, now);
            &&& after.panes == app.panes && after.outbox == app.outbox
        },
{
    reveal(AppModel::handled);
    reveal(AppModel::input_handled);
    reveal(AppModel::mouse_handled);
    reveal(AppModel::pane_gesture);
    reveal(AppModel::left_pressed);
    reveal(AppModel::wheeled);
}

/// The next look at the selection is no later than the end of the highlight or the
/// next step of a scroll, and it is one of the two.
pub proof fn the_next_look_at_the_selection_is_the_nearer_one(app: AppModel)
    ensures
        ({
            let next = app.selection_deadline();
            let step = app.pointer.autoscroll_deadline;
            let end = app.pointer.clear_deadline;
            &&& next is Some <==> step is Some || end is Some
            &&& step is Some ==> next->0.nanos <= step->0.nanos
            &&& end is Some ==> next->0.nanos <= end->0.nanos
            &&& next == step || next == end
        }),
{
}

} // verus!
