//! Screens: how the cells of a terminal are read, styled and selected.

use vstd::prelude::*;
use crate::emulator::{
    glyphs, joined, opened_screen, replies, resolved_style, without_trailing_blanks, CellColor,
    Color, MouseProtocolEncoding, MouseProtocolMode, Rgb, Screen, ScreenCell, ScreenModes,
};
use crate::engine::{blank_display, Said, TermAction};
use crate::geometry::Rect;
use crate::palette::HostColors;
use crate::selection::{
    closest_cell, grid_cell, selected_text, token_end, token_start, word_span, BufferCell,
    GridCell, ScrollMetrics, Selection, SelectionPhase,
};
use crate::text::is_white;

verus! {

/// The widest mouse mode that a program asked for is the one that holds: every
/// motion, or motion with a button, or presses and releases. The SGR encoding goes
/// before the UTF-8 one, and both before the plain one.
pub proof fn the_widest_mouse_mode_holds(modes: ScreenModes)
    ensures
        modes.mouse_motion ==> modes.mouse_mode() == MouseProtocolMode::AnyMotion,
        !modes.mouse_motion && modes.mouse_drag ==> modes.mouse_mode()
            == MouseProtocolMode::ButtonMotion,
        !modes.mouse_motion && !modes.mouse_drag && modes.mouse_click ==> modes.mouse_mode()
            == MouseProtocolMode::PressRelease,
        !modes.mouse_motion && !modes.mouse_drag && !modes.mouse_click ==> modes.mouse_mode()
            == MouseProtocolMode::Off,
        modes.sgr_mouse ==> modes.mouse_encoding() == MouseProtocolEncoding::Sgr,
        !modes.sgr_mouse && modes.utf8_mouse ==> modes.mouse_encoding()
            == MouseProtocolEncoding::Utf8,
        !modes.sgr_mouse && !modes.utf8_mouse ==> modes.mouse_encoding()
            == MouseProtocolEncoding::Default,
{
}

/// A cell is drawn as the program drew it: its two colors each where they belong,
/// a true color as it is, and each attribute as itself.
pub proof fn a_cell_is_drawn_as_the_program_drew_it(cell: ScreenCell, r: u8, g: u8, b: u8)
    ensures
        ({
            let style = resolved_style(cell);
            &&& cell.fg == CellColor::Spec(Rgb { r, g, b }) ==> style.fg == Color::Rgb(r, g, b)
            &&& cell.bg == CellColor::Spec(Rgb { r, g, b }) ==> style.bg == Color::Rgb(r, g, b)
            &&& cell.fg matches CellColor::Indexed(index) ==> style.fg == Color::Indexed(index)
            &&& cell.bg matches CellColor::Indexed(index) ==> style.bg == Color::Indexed(index)
            &&& cell.fg matches CellColor::Named(number) ==> style.fg == (if number <= 15 {
                Color::Indexed(number as u8)
            } else {
                Color::Reset
            })
            &&& cell.bg matches CellColor::Named(number) ==> style.bg == (if number <= 15 {
                Color::Indexed(number as u8)
            } else {
                Color::Reset
            })
            &&& style.bold == cell.flags.bold
            &&& style.dim == cell.flags.dim
            &&& style.italic == cell.flags.italic
            &&& style.underlined == cell.flags.underlined
            &&& style.reversed == cell.flags.inverse
            &&& style.hidden == cell.flags.hidden
            &&& style.crossed_out == cell.flags.strikeout
        }),
{
}

/// A line reads as its characters: a cell that only makes room for a wide character
/// is skipped, every other adds its own.
pub proof fn cells_read_one_after_the_other(cells: Seq<ScreenCell>, cell: ScreenCell)
    ensures
        glyphs(Seq::empty()).len() == 0,
        cell.flags.wide_spacer || cell.flags.leading_spacer ==> glyphs(cells.push(cell)) == glyphs(
            cells,
        ),
        !cell.flags.wide_spacer && !cell.flags.leading_spacer ==> glyphs(cells.push(cell))
            == glyphs(cells).push(cell.ch),
{
    assert(cells.push(cell).drop_last() =~= cells);
}

/// The text of a line has no blanks at its end, and is otherwise whole.
pub proof fn trailing_blanks_are_dropped(text: Seq<char>)
    ensures
        ({
            let kept = without_trailing_blanks(text);
            &&& kept.len() <= text.len()
            &&& kept == text.take(kept.len() as int)
            &&& kept.len() > 0 ==> kept.last() != ' '
            &&& forall|i: int| kept.len() <= i < text.len() ==> #[trigger] text[i] == ' '
        }),
    decreases text.len(),
{
    if text.len() > 0 && text.last() == ' ' {
        let rest = text.drop_last();
        trailing_blanks_are_dropped(rest);
        let kept = without_trailing_blanks(text);
        assert(kept =~= text.take(kept.len() as int));
        assert forall|i: int| kept.len() <= i < text.len() implies #[trigger] text[i] == ' ' by {
            if i < rest.len() {
                assert(rest[i] == text[i]);
            }
        }
    } else {
        assert(text.take(text.len() as int) =~= text);
    }
}

/// One line is read between two columns, the first one read and the last one not,
/// and not past the width of the screen.
pub proof fn a_row_is_read_between_its_columns(screen: Screen, row: int, from: int, to: int)
    requires
        0 <= row < screen.lines.len(),
        screen.lines[row].len() == screen.cols,
        0 <= from <= to,
        from <= screen.cols,
    ensures
        to <= screen.cols ==> screen.row_text(row, from, to) == without_trailing_blanks(
            glyphs(screen.lines[row].subrange(from, to)),
        ),
        to > screen.cols ==> screen.row_text(row, from, to) == without_trailing_blanks(
            glyphs(screen.lines[row].subrange(from, screen.cols as int)),
        ),
        screen.span_text(row, from, row, to) == screen.row_text(row, from, to),
{
}

/// A view that is not scrolled shows the last lines; scrolled by some lines, it
/// shows the lines that many further up.
pub proof fn the_view_ends_as_far_up_as_it_is_scrolled(screen: Screen)
    requires
        screen.lines.len() >= screen.rows,
        screen.display_offset <= screen.lines.len() - screen.rows,
    ensures
        screen.view_top() + screen.rows + screen.display_offset == screen.lines.len(),
        screen.history() == screen.lines.len() - screen.rows,
{
}

/// A selected text runs from its first cell to its last, both of them read, and
/// over the whole width of the lines between.
pub proof fn a_selection_reads_both_its_ends(
    screen: Screen,
    start: BufferCell,
    end: BufferCell,
)
    requires
        screen.rows > 0,
        screen.cols > 0,
        start.row <= end.row < screen.lines.len(),
        screen.lines.len() >= screen.rows,
        end.column < screen.cols,
    ensures
        selected_text(screen, start, end) == Some(
            screen.span_text(
                start.row as int,
                start.column as int,
                end.row as int,
                end.column + 1,
            ),
        ),
        start.row == end.row ==> selected_text(screen, start, end) == Some(
            screen.row_text(start.row as int, start.column as int, end.column + 1),
        ),
        start.row + 1 == end.row ==> selected_text(screen, start, end) == Some(
            screen.row_text(start.row as int, start.column as int, screen.cols as int).push('\n')
                + screen.row_text(end.row as int, 0, end.column + 1),
        ),
{
    reveal_with_fuel(Screen::span_text, 3);
}

/// The word at a column is the longest run without whitespace around it; there is
/// none on whitespace or past the end.
pub proof fn a_word_is_a_run_without_whitespace(text: Seq<char>, column: u16)
    requires
        text.len() <= u16::MAX,
    ensures
        word_span(text, column) is Some <==> column < text.len() && !is_white(text[column as int]),
        word_span(text, column) matches Some((start, end)) ==> {
            &&& start <= column <= end < text.len()
            &&& forall|i: int| start <= i <= end ==> !is_white(#[trigger] text[i])
            &&& start > 0 ==> is_white(text[start - 1])
            &&& end + 1 < text.len() ==> is_white(text[end + 1])
        },
{
    if column < text.len() && !is_white(text[column as int]) {
        word_starts(text, column as int);
        word_ends(text, column as int);
    }
}

proof fn word_starts(text: Seq<char>, index: int)
    requires
        0 <= index < text.len(),
        !is_white(text[index]),
    ensures
        0 <= token_start(text, index) <= index,
        forall|i: int| token_start(text, index) <= i <= index ==> !is_white(#[trigger] text[i]),
        token_start(text, index) > 0 ==> is_white(text[token_start(text, index) - 1]),
    decreases index,
{
    if index > 0 && !is_white(text[index - 1]) {
        word_starts(text, index - 1);
    }
}

proof fn word_ends(text: Seq<char>, index: int)
    requires
        0 <= index < text.len(),
        !is_white(text[index]),
    ensures
        index <= token_end(text, index) < text.len(),
        forall|i: int| index <= i <= token_end(text, index) ==> !is_white(#[trigger] text[i]),
        token_end(text, index) + 1 < text.len() ==> is_white(text[token_end(text, index) + 1]),
    decreases text.len() - index,
{
    if index + 1 < text.len() && !is_white(text[index + 1]) {
        word_ends(text, index + 1);
    }
}

/// The cell nearest to a point is the one under it, or the one at the edge that the
/// point lies beyond.
pub proof fn the_nearest_cell_is_at_the_edge(grid: Rect, column: u16, row: u16)
    requires
        grid.width > 0,
        grid.height > 0,
    ensures
        ({
            let cell = closest_cell(grid, column, row)->0;
            &&& closest_cell(grid, column, row) is Some
            &&& column < grid.x ==> cell.column == 0
            &&& grid.x <= column && column - grid.x < grid.width ==> cell.column == column - grid.x
            &&& column >= grid.x && column - grid.x >= grid.width ==> cell.column == grid.width - 1
            &&& row < grid.y ==> cell.row == 0
            &&& grid.y <= row && row - grid.y < grid.height ==> cell.row == row - grid.y
            &&& row >= grid.y && row - grid.y >= grid.height ==> cell.row == grid.height - 1
        }),
        grid_cell(grid, column, row) is Some <==> grid.holds(column, row),
{
}

/// A cell of the view is the cell of the history that is shown there.
pub proof fn a_view_cell_is_the_line_shown_there(metrics: ScrollMetrics, cell: GridCell)
    requires
        metrics.offset <= metrics.len,
        metrics.len + u16::MAX <= usize::MAX,
    ensures
        metrics.under(cell).row == metrics.len - metrics.offset + cell.row,
        metrics.under(cell).column == cell.column,
{
}

/// The part of a selection that is in view runs from its first cell, or from the
/// top left corner where it began above, to its last cell, or to the bottom right
/// corner where it goes on below. A press that has not moved is not shown.
pub proof fn a_selection_is_shown_where_it_is_in_view(
    active: Selection,
    top: int,
    rows: u16,
    columns: u16,
)
    requires
        0 <= top,
        rows > 0,
        columns > 0,
    ensures
        ({
            let start = active.ordered().0;
            let end = active.ordered().1;
            let seen = active.seen(top, rows, columns);
            let apart = end.row < top || start.row >= top + rows;
            &&& active.phase == SelectionPhase::Pressed ==> seen is None
            &&& apart ==> seen is None
            &&& active.phase != SelectionPhase::Pressed && !apart ==> seen is Some
            &&& seen matches Some((from, to)) ==> {
                &&& start.row < top ==> from.row == 0 && from.column == 0
                &&& start.row >= top ==> from.row == start.row - top && from.column == start.column
                &&& end.row >= top + rows ==> to.row == rows - 1 && to.column == columns - 1
                &&& end.row < top + rows ==> to.row == end.row - top && to.column == end.column
            }
        }),
{
}

/// A selection reads from its earlier to its later cell, whichever way it was
/// drawn.
pub proof fn a_selection_reads_forward(active: Selection)
    ensures
        ({
            let (start, end) = active.ordered();
            &&& start.row < end.row || start.row == end.row && start.column <= end.column
            &&& start == active.anchor && end == active.head || start == active.head && end
                == active.anchor
        }),
{
}

/// A screen takes what happens to it in order: what it is fed, and each new size; a
/// new one begins with its size and its history. What it has to answer is kept in
/// the order in which it was asked.
pub proof fn a_screen_takes_what_happens_in_order(
    screen: Screen,
    bytes: Seq<u8>,
    rows: u16,
    cols: u16,
    history: usize,
)
    ensures
        screen.processed(bytes).story == screen.story.push(TermAction::Feed(bytes)),
        screen.resized(rows, cols).story == screen.story.push(TermAction::Resize { rows, cols }),
        opened_screen(rows, cols, history, screen.host).story == seq![
            TermAction::Open { rows, cols, history },
        ],
        screen.processed(bytes).host == screen.host,
        screen.resized(rows, cols).reports == screen.reports,
        screen.reports.len() <= screen.processed(bytes).reports.len(),
        screen.processed(bytes).reports.take(screen.reports.len() as int) == screen.reports,
        opened_screen(rows, cols, history, screen.host).reports.len() == 0,
{
    let after = screen.processed(bytes).reports;
    assert(after.take(screen.reports.len() as int) =~= screen.reports);
}

/// What a screen has to answer is written one after the other.
pub proof fn answers_are_written_in_order(first: Seq<Seq<u8>>, report: Seq<u8>)
    ensures
        joined(first.push(report)) == joined(first) + report,
        joined(Seq::empty()).len() == 0,
    decreases first.len(),
{
    let all = first.push(report);
    if first.len() == 0 {
        reveal_with_fuel(joined, 2);
        assert(all.skip(1) =~= Seq::<Seq<u8>>::empty());
        assert(joined(all) =~= joined(first) + report);
    } else {
        answers_are_written_in_order(first.skip(1), report);
        assert(all.skip(1) =~= first.skip(1).push(report));
        assert(joined(all) =~= joined(first) + report);
    }
}

/// What the terminal writes for the child goes to the child as it is, in its turn
/// among the answers; what is no matter of the child adds nothing.
pub proof fn what_the_terminal_writes_reaches_the_child(
    said: Seq<Said>,
    bytes: Seq<u8>,
    host: Option<HostColors>,
)
    ensures
        replies(said.push(Said::Write(bytes)), host) == replies(said, host).push(bytes),
        replies(said.push(Said::Other), host) == replies(said, host),
        replies(Seq::empty(), host).len() == 0,
    decreases said.len(),
{
    let written = said.push(Said::Write(bytes));
    let other = said.push(Said::Other);
    if said.len() == 0 {
        reveal_with_fuel(replies, 2);
        assert(written.skip(1) =~= said);
        assert(other.skip(1) =~= said);
        assert(replies(written, host) =~= replies(said, host).push(bytes));
    } else {
        what_the_terminal_writes_reaches_the_child(said.skip(1), bytes, host);
        assert(written.skip(1) =~= said.skip(1).push(Said::Write(bytes)));
        assert(other.skip(1) =~= said.skip(1).push(Said::Other));
        assert(replies(written, host) =~= replies(said, host).push(bytes));
        assert(replies(other, host) =~= replies(said, host));
    }
}

/// A terminal that was just opened is empty and in view, with the cursor shown in
/// its first cell, and no program has asked it for the mouse yet.
pub proof fn an_opened_terminal_is_blank(rows: u16, cols: u16, row: int, column: int)
    requires
        0 <= row < rows,
        0 <= column < cols,
    ensures
        ({
            let display = blank_display(rows, cols);
            let cell = display.lines[row][column];
            &&& display.lines.len() == rows && display.lines[row].len() == cols
            &&& cell.ch == ' '
            &&& resolved_style(cell).fg == Color::Reset && resolved_style(cell).bg == Color::Reset
            &&& !cell.flags.inverse && !cell.flags.hidden
            &&& display.cursor_line == 0 && display.cursor_column == 0
            &&& display.display_offset == 0
            &&& display.modes.show_cursor && !display.modes.alternate_screen
            &&& !display.modes.bracketed_paste && !display.modes.application_cursor
            &&& display.modes.mouse_mode() == MouseProtocolMode::Off
        }),
{
}

} // verus!
