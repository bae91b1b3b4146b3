//! The screen of a managed pane.
//!
//! The terminal engine interprets what a child writes. This module reads what it
//! makes of it: the retained lines, how far the view is scrolled back, the modes
//! that the child asked for.

use vstd::prelude::*;
use vstd::string::*;
use alacritty_terminal::event::Event;
use crate::engine::{
    answer_with, blank_display, cell_line, display_after, hear, open_terminal, said_by, said_in,
    said_of, story_of, Engine, Heard, Said, TermAction, MAX_HISTORY, MIN_COLUMNS, MIN_ROWS,
};
use crate::palette::{gray, query_color, resolve_color, HostColors, FALLBACK_BACKGROUND};

verus! {

/// xterm mouse-reporting mode a child has requested.
#[derive(Debug, Clone, Copy, PartialEq, Eq, Structural)]
pub enum MouseProtocolMode {
    /// No mouse reporting.
    Off,
    /// Report presses only (mode 9).
    Press,
    /// Report presses and releases (mode 1000).
    PressRelease,
    /// Report presses, releases, and motion while a button is held (mode 1002).
    ButtonMotion,
    /// Report presses, releases, and all motion (mode 1003).
    AnyMotion,
}

/// Byte encoding a child expects for mouse reports.
#[derive(Debug, Clone, Copy, PartialEq, Eq, Structural)]
pub enum MouseProtocolEncoding {
    /// Legacy single-byte encoding.
    Default,
    /// UTF-8 extended coordinates (mode 1005).
    Utf8,
    /// SGR encoding (mode 1006).
    Sgr,
}

/// A color in eight bits per channel.
#[derive(Debug, Clone, Copy, PartialEq, Eq, Structural)]
pub struct Rgb {
    /// Red.
    pub r: u8,
    /// Green.
    pub g: u8,
    /// Blue.
    pub b: u8,
}

/// A cell color as the child named it.
#[derive(Debug, Clone, Copy, PartialEq, Eq, Structural)]
pub enum CellColor {
    /// One of the terminal's named colors, by number.
    Named(usize),
    /// A slot of the 256-color palette.
    Indexed(u8),
    /// A true color.
    Spec(Rgb),
}

/// A color as the host terminal is asked to show it.
#[derive(Debug, Clone, Copy, PartialEq, Eq, Structural)]
pub enum Color {
    /// The host's own default.
    Reset,
    /// A palette slot, shown in the host's theme.
    Indexed(u8),
    /// A true color.
    Rgb(u8, u8, u8),
}

/// Attributes of a cell.
#[derive(Debug, Clone, Copy, PartialEq, Eq, Structural)]
pub struct CellFlags {
    /// Bold.
    pub bold: bool,
    /// Dim.
    pub dim: bool,
    /// Italic.
    pub italic: bool,
    /// Underlined in any form.
    pub underlined: bool,
    /// Foreground and background exchanged.
    pub inverse: bool,
    /// Not shown.
    pub hidden: bool,
    /// Struck out.
    pub strikeout: bool,
    /// The empty half behind a wide character.
    pub wide_spacer: bool,
    /// The empty cell at the end of a line whose wide character did not fit.
    pub leading_spacer: bool,
}

impl CellFlags {
    /// Whether the cell only makes room for a wide character.
    pub open spec fn makes_room(self) -> bool {
        self.wide_spacer || self.leading_spacer
    }

    /// Returns whether the cell only makes room for a wide character.
    pub fn is_spacer(&self) -> (spacer: bool)
        ensures
            spacer == self.makes_room(),
    {
        self.wide_spacer || self.leading_spacer
    }
}

/// One cell of a line.
#[derive(Debug, Clone, Copy, PartialEq, Eq, Structural)]
pub struct ScreenCell {
    /// Glyph.
    pub ch: char,
    /// Foreground.
    pub fg: CellColor,
    /// Background.
    pub bg: CellColor,
    /// Attributes.
    pub flags: CellFlags,
}

/// The number of the named default foreground.
pub const NAMED_FOREGROUND: usize = 256;

/// The number of the named default background.
pub const NAMED_BACKGROUND: usize = 257;

/// The largest number of a named color that stands for a slot of the 16-color
/// palette. The default foreground and background lie far above it, so they -
/// and cursor, dim, and bright aliases - resolve to the host default.
pub const LAST_ANSI_NAMED: usize = 15;

/// An empty cell in the default colors.
pub open spec fn blank_cell() -> ScreenCell {
    ScreenCell {
        ch: ' ',
        fg: CellColor::Named(NAMED_FOREGROUND),
        bg: CellColor::Named(NAMED_BACKGROUND),
        flags: CellFlags {
            bold: false,
            dim: false,
            italic: false,
            underlined: false,
            inverse: false,
            hidden: false,
            strikeout: false,
            wide_spacer: false,
            leading_spacer: false,
        },
    }
}

/// The resolved style of a cell.
#[derive(Debug, Clone, Copy, PartialEq, Eq, Structural)]
pub struct CellStyle {
    /// Foreground.
    pub fg: Color,
    /// Background.
    pub bg: Color,
    /// Bold.
    pub bold: bool,
    /// Dim.
    pub dim: bool,
    /// Italic.
    pub italic: bool,
    /// Underlined.
    pub underlined: bool,
    /// Foreground and background exchanged.
    pub reversed: bool,
    /// Not shown.
    pub hidden: bool,
    /// Struck out.
    pub crossed_out: bool,
}

/// One rendered grid cell: its glyph, resolved style, and whether it is the
/// trailing half of a wide character (which the renderer skips).
#[derive(Debug, Clone, Copy, PartialEq, Eq, Structural)]
pub struct RenderCell {
    ch: char,
    style: CellStyle,
    spacer: bool,
}

/// A color as the host terminal is asked to show it: palette slots keep their
/// number, so that the host's theme is honored.
pub open spec fn shown_color(color: CellColor) -> Color {
    match color {
        CellColor::Spec(rgb) => Color::Rgb(rgb.r, rgb.g, rgb.b),
        CellColor::Indexed(index) => Color::Indexed(index),
        CellColor::Named(number) => if number <= LAST_ANSI_NAMED {
            Color::Indexed(number as u8)
        } else {
            Color::Reset
        },
    }
}

/// Maps a cell color to the color that the host terminal is asked to show.
pub fn to_color(color: CellColor) -> (shown: Color)
    ensures
        shown == shown_color(color),
{
    match color {
        CellColor::Spec(rgb) => Color::Rgb(rgb.r, rgb.g, rgb.b),
        CellColor::Indexed(index) => Color::Indexed(index),
        CellColor::Named(number) => if number <= LAST_ANSI_NAMED {
            Color::Indexed(number as u8)
        } else {
            Color::Reset
        },
    }
}

/// The style that a cell's colors and attributes resolve to.
pub open spec fn resolved_style(cell: ScreenCell) -> CellStyle {
    CellStyle {
        fg: shown_color(cell.fg),
        bg: shown_color(cell.bg),
        bold: cell.flags.bold,
        dim: cell.flags.dim,
        italic: cell.flags.italic,
        underlined: cell.flags.underlined,
        reversed: cell.flags.inverse,
        hidden: cell.flags.hidden,
        crossed_out: cell.flags.strikeout,
    }
}

/// Resolves a cell's colors and attributes to a style. Named and indexed colors
/// pass through as palette slots so the host terminal applies its own theme.
pub fn cell_style(cell: ScreenCell) -> (style: CellStyle)
    ensures
        style == resolved_style(cell),
{
    CellStyle {
        fg: to_color(cell.fg),
        bg: to_color(cell.bg),
        bold: cell.flags.bold,
        dim: cell.flags.dim,
        italic: cell.flags.italic,
        underlined: cell.flags.underlined,
        reversed: cell.flags.inverse,
        hidden: cell.flags.hidden,
        crossed_out: cell.flags.strikeout,
    }
}

impl RenderCell {
    /// The cell that a screen cell is rendered as.
    pub closed spec fn rendering(cell: ScreenCell) -> RenderCell {
        RenderCell { ch: cell.ch, style: resolved_style(cell), spacer: cell.flags.makes_room() }
    }

    /// The glyph to draw.
    pub closed spec fn glyph(self) -> char {
        self.ch
    }

    /// The resolved style.
    pub closed spec fn look(self) -> CellStyle {
        self.style
    }

    /// Whether the renderer skips this cell.
    pub closed spec fn skipped(self) -> bool {
        self.spacer
    }

    /// Returns the cell that a screen cell is rendered as.
    pub fn of(cell: ScreenCell) -> (rendered: RenderCell)
        ensures
            rendered == RenderCell::rendering(cell),
            rendered.glyph() == cell.ch,
            rendered.look() == resolved_style(cell),
            rendered.skipped() == cell.flags.makes_room(),
    {
        RenderCell { ch: cell.ch, style: cell_style(cell), spacer: cell.flags.is_spacer() }
    }

    /// Returns the glyph to draw.
    pub fn ch(&self) -> (ch: char)
        ensures
            ch == self.glyph(),
    {
        self.ch
    }

    /// Returns the resolved style for the cell.
    pub fn style(&self) -> (style: CellStyle)
        ensures
            style == self.look(),
    {
        self.style
    }

    /// Returns whether this cell is a wide-character spacer the renderer should
    /// skip so the wide glyph in the previous column keeps both cells.
    pub fn is_spacer(&self) -> (spacer: bool)
        ensures
            spacer == self.skipped(),
    {
        self.spacer
    }
}

/// The private modes of a terminal that pointer, key and paste handling read.
#[derive(Debug, Clone, Copy, PartialEq, Eq, Structural)]
pub struct ScreenModes {
    /// The alternate screen is shown.
    pub alternate_screen: bool,
    /// Pastes are to be bracketed.
    pub bracketed_paste: bool,
    /// Cursor keys are sent in application form.
    pub application_cursor: bool,
    /// The cursor is visible.
    pub show_cursor: bool,
    /// All pointer motion is reported.
    pub mouse_motion: bool,
    /// Pointer motion with a held button is reported.
    pub mouse_drag: bool,
    /// Clicks are reported.
    pub mouse_click: bool,
    /// Mouse reports use the SGR encoding.
    pub sgr_mouse: bool,
    /// Mouse reports use UTF-8 coordinates.
    pub utf8_mouse: bool,
}

/// The modes of a terminal that was just reset.
pub open spec fn initial_modes() -> ScreenModes {
    ScreenModes {
        alternate_screen: false,
        bracketed_paste: false,
        application_cursor: false,
        show_cursor: true,
        mouse_motion: false,
        mouse_drag: false,
        mouse_click: false,
        sgr_mouse: false,
        utf8_mouse: false,
    }
}

impl ScreenModes {
    /// The mouse reports that these modes ask for: the widest one wins.
    pub open spec fn mouse_mode(self) -> MouseProtocolMode {
        if self.mouse_motion {
            MouseProtocolMode::AnyMotion
        } else if self.mouse_drag {
            MouseProtocolMode::ButtonMotion
        } else if self.mouse_click {
            MouseProtocolMode::PressRelease
        } else {
            MouseProtocolMode::Off
        }
    }

    /// The byte encoding that these modes ask for.
    pub open spec fn mouse_encoding(self) -> MouseProtocolEncoding {
        if self.sgr_mouse {
            MouseProtocolEncoding::Sgr
        } else if self.utf8_mouse {
            MouseProtocolEncoding::Utf8
        } else {
            MouseProtocolEncoding::Default
        }
    }
}

/// A managed pane's terminal screen.
pub struct TerminalEmulator {
    /// The terminal.
    pub engine: Engine,
    /// Colors that color queries are answered with.
    pub host: Option<HostColors>,
}

/// What a screen holds.
#[verifier::ext_equal]
pub struct Screen {
    /// What the terminal has been through.
    pub story: Seq<TermAction>,
    /// Colors that color queries are answered with.
    pub host: Option<HostColors>,
    /// Rows of the screen.
    pub rows: u16,
    /// Columns of the screen.
    pub cols: u16,
    /// Lines the view is scrolled up into history (0 at the live bottom).
    pub display_offset: usize,
    /// The retained lines, oldest first; the last ones are the live screen.
    pub lines: Seq<Seq<ScreenCell>>,
    /// Private modes.
    pub modes: ScreenModes,
    /// Row of the cursor on the live screen.
    pub cursor_line: u16,
    /// Column of the cursor.
    pub cursor_column: u16,
    /// What is to be written back to the child.
    pub reports: Seq<Seq<u8>>,
}

/// The screen of a terminal that has been through a story.
pub open spec fn screen_after(
    story: Seq<TermAction>,
    host: Option<HostColors>,
    reports: Seq<Seq<u8>>,
) -> Screen {
    let display = display_after(story);
    Screen {
        story,
        host,
        rows: display.rows,
        cols: display.cols,
        display_offset: display.display_offset,
        lines: display.lines,
        modes: display.modes,
        cursor_line: display.cursor_line,
        cursor_column: display.cursor_column,
        reports,
    }
}

/// What is written back to the child for one thing that the terminal says:
/// bytes for the child as they are, and the answer with the color of the palette
/// for a color query.
pub open spec fn reply_to(said: Said, host: Option<HostColors>) -> Option<Seq<u8>> {
    match said {
        Said::Write(bytes) => Some(bytes),
        Said::Query { index, answers } => Some(answers[query_color(index as int, host)]),
        Said::Other => None,
    }
}

/// What is written back to the child for all that the terminal says, in order.
pub open spec fn replies(said: Seq<Said>, host: Option<HostColors>) -> Seq<Seq<u8>>
    decreases said.len(),
{
    if said.len() == 0 {
        Seq::empty()
    } else {
        match reply_to(said[0], host) {
            Some(bytes) => seq![bytes] + replies(said.skip(1), host),
            None => replies(said.skip(1), host),
        }
    }
}

impl View for TerminalEmulator {
    type V = Screen;

    open spec fn view(&self) -> Screen {
        screen_after(
            story_of(self.engine),
            self.host,
            replies(said_of(self.engine), self.host),
        )
    }
}

/// Reports one after the other.
pub open spec fn joined(reports: Seq<Seq<u8>>) -> Seq<u8>
    decreases reports.len(),
{
    if reports.len() == 0 {
        Seq::empty()
    } else {
        reports[0] + joined(reports.skip(1))
    }
}

/// The glyphs of a run of cells, without the empty halves of wide characters.
pub open spec fn glyphs(cells: Seq<ScreenCell>) -> Seq<char>
    decreases cells.len(),
{
    if cells.len() == 0 {
        Seq::empty()
    } else if cells.last().flags.makes_room() {
        glyphs(cells.drop_last())
    } else {
        glyphs(cells.drop_last()).push(cells.last().ch)
    }
}

/// `text` without the blanks it ends with.
pub open spec fn without_trailing_blanks(text: Seq<char>) -> Seq<char>
    decreases text.len(),
{
    if text.len() > 0 && text.last() == ' ' {
        without_trailing_blanks(text.drop_last())
    } else {
        text
    }
}

/// The cells of a line from column `from` up to column `to`.
pub open spec fn cells_between(line: Seq<ScreenCell>, from: int, to: int) -> Seq<ScreenCell> {
    let end = if to <= line.len() {
        to
    } else {
        line.len() as int
    };
    if 0 <= from <= end {
        line.subrange(from, end)
    } else {
        Seq::empty()
    }
}

/// The text of one line between two columns, trailing blanks trimmed.
pub open spec fn line_text(line: Seq<ScreenCell>, from: int, to: int) -> Seq<char> {
    without_trailing_blanks(glyphs(cells_between(line, from, to)))
}

/// The smaller of two numbers.
pub open spec fn smaller(a: int, b: int) -> int {
    if a <= b {
        a
    } else {
        b
    }
}

impl Screen {
    /// How many lines lie above the live screen.
    pub open spec fn history(self) -> int {
        if self.lines.len() >= self.rows {
            self.lines.len() - self.rows
        } else {
            0
        }
    }

    /// The retained line that the view starts with.
    pub open spec fn view_top(self) -> int {
        if self.display_offset <= self.history() {
            self.history() - self.display_offset
        } else {
            0
        }
    }

    /// A retained line; an empty one where there is none.
    pub open spec fn line(self, row: int) -> Seq<ScreenCell> {
        if 0 <= row < self.lines.len() {
            self.lines[row]
        } else {
            Seq::empty()
        }
    }

    /// The screen with the view scrolled `offset` lines into history, as far
    /// as there is history.
    pub open spec fn scrolled(self, offset: usize) -> Screen {
        let target = if offset <= self.history() {
            offset
        } else {
            self.history() as usize
        };
        if target == self.display_offset {
            self
        } else {
            Screen {
                display_offset: target,
                story: self.story.push(TermAction::Scroll(target)),
                ..self
            }
        }
    }

    /// The screen after the terminal has interpreted some output.
    pub open spec fn processed(self, bytes: Seq<u8>) -> Screen {
        let story = self.story.push(TermAction::Feed(bytes));
        screen_after(story, self.host, self.reports + replies(said_in(story), self.host))
    }

    /// The screen in another size.
    pub open spec fn resized(self, rows: u16, cols: u16) -> Screen {
        screen_after(self.story.push(TermAction::Resize { rows, cols }), self.host, self.reports)
    }

    /// The text of one retained line between two columns of the screen.
    pub open spec fn row_text(self, row: int, from: int, to: int) -> Seq<char> {
        line_text(self.line(row), from, smaller(to, self.cols as int))
    }

    /// The text of the linear span of retained lines from (`top`, `start`) to
    /// (`bot`, `end`): the first line from `start`, whole lines between, and
    /// the last line up to `end`.
    pub open spec fn span_text(self, top: int, start: int, bot: int, end: int) -> Seq<char>
        decreases bot - top,
    {
        if top > bot {
            Seq::empty()
        } else if top == bot {
            self.row_text(top, start, end)
        } else {
            self.span_text(top, start, bot - 1, self.cols as int).push('\n') + self.row_text(
                bot,
                0,
                end,
            )
        }
    }
}

/// The screen of a terminal that was just opened.
pub open spec fn opened_screen(
    rows: u16,
    cols: u16,
    scrollback: usize,
    host: Option<HostColors>,
) -> Screen {
    screen_after(
        seq![TermAction::Open { rows, cols, history: scrollback }],
        host,
        Seq::empty(),
    )
}

impl TerminalEmulator {
    /// Returns a terminal with a blank screen of `rows` by `cols` that retains
    /// `scrollback` lines of history and answers color queries for `host`.
    pub fn new(rows: u16, cols: u16, scrollback: usize, host: Option<HostColors>) -> (screen:
        TerminalEmulator)
        requires
            rows >= MIN_ROWS,
            cols >= MIN_COLUMNS,
            scrollback <= MAX_HISTORY,
        ensures
            screen@ == opened_screen(rows, cols, scrollback, host),
            display_after(screen@.story) == blank_display(rows, cols),
    {
        TerminalEmulator { engine: open_terminal(rows, cols, scrollback), host }
    }

    /// Feeds one chunk of child output through the terminal.
    pub fn process(&mut self, bytes: &Vec<u8>)
        ensures
            final(self)@ == old(self)@.processed(bytes@),
            final(self)@.rows == old(self)@.rows,
            final(self)@.cols == old(self)@.cols,
    {
        let ghost before = said_of(self.engine);
        self.engine.feed(bytes);
        proof {
            replies_follow_their_order(before, said_in(story_of(self.engine)), self.host);
        }
    }

    /// Resizes the screen to `rows` by `cols`, reflowing history.
    pub fn set_size(&mut self, rows: u16, cols: u16)
        requires
            rows >= MIN_ROWS,
            cols >= MIN_COLUMNS,
        ensures
            final(self)@ == old(self)@.resized(rows, cols),
            final(self)@.rows == rows,
            final(self)@.cols == cols,
    {
        self.engine.resize(rows, cols);
    }

    /// Returns the screen dimensions as `(rows, cols)`.
    pub fn size(&self) -> (size: (u16, u16))
        ensures
            size == (self@.rows, self@.cols),
    {
        self.engine.size()
    }

    /// Returns how many lines lie above the live screen.
    pub fn history_len(&self) -> (len: usize)
        ensures
            len == self@.history(),
            len <= MAX_HISTORY,
            self@.lines.len() == len + self@.rows,
    {
        self.engine.history_size()
    }

    /// Returns the lines currently scrolled up into history (0 at the live
    /// bottom).
    pub fn scrollback(&self) -> (offset: usize)
        ensures
            offset == self@.display_offset,
    {
        self.engine.display_offset()
    }

    /// Scrolls the viewport to `offset` lines into history, clamped to the
    /// available range. `usize::MAX` jumps to the oldest retained line.
    pub fn set_scrollback(&mut self, offset: usize)
        ensures
            final(self)@ == old(self)@.scrolled(offset),
    {
        let history: usize = self.engine.history_size();
        let target: usize = if offset <= history {
            offset
        } else {
            history
        };
        let current: usize = self.engine.display_offset();
        let ghost before = said_of(self.engine);
        if target > current {
            self.engine.scroll(target, (target - current) as i32);
        } else if target < current {
            self.engine.scroll(target, -((current - target) as i32));
        }
        proof {
            if target != current {
                let said = said_in(story_of(self.engine));
                replies_follow_their_order(before, said, self.host);
                only_questions_and_writes_are_answered(said, self.host);
                assert(replies(before, self.host) + replies(said, self.host) =~= replies(
                    before,
                    self.host,
                ));
            }
        }
    }

    /// Returns whether the child is on the alternate screen.
    pub fn alternate_screen(&self) -> (alternate: bool)
        ensures
            alternate == self@.modes.alternate_screen,
    {
        self.engine.modes().alternate_screen
    }

    /// Returns whether the child requested bracketed paste, so a paste must be
    /// wrapped so it is treated as one paste rather than typed input.
    pub fn bracketed_paste(&self) -> (bracketed: bool)
        ensures
            bracketed == self@.modes.bracketed_paste,
    {
        self.engine.modes().bracketed_paste
    }

    /// Returns whether application cursor keys are active, which selects the
    /// arrow-key form sent for alternate-screen wheel scrolling.
    pub fn application_cursor(&self) -> (application: bool)
        ensures
            application == self@.modes.application_cursor,
    {
        self.engine.modes().application_cursor
    }

    /// Returns the child's requested mouse-reporting mode.
    pub fn mouse_protocol_mode(&self) -> (mode: MouseProtocolMode)
        ensures
            mode == self@.modes.mouse_mode(),
    {
        let modes: ScreenModes = self.engine.modes();
        if modes.mouse_motion {
            MouseProtocolMode::AnyMotion
        } else if modes.mouse_drag {
            MouseProtocolMode::ButtonMotion
        } else if modes.mouse_click {
            MouseProtocolMode::PressRelease
        } else {
            MouseProtocolMode::Off
        }
    }

    /// Returns the child's requested mouse-report byte encoding.
    pub fn mouse_protocol_encoding(&self) -> (encoding: MouseProtocolEncoding)
        ensures
            encoding == self@.modes.mouse_encoding(),
    {
        let modes: ScreenModes = self.engine.modes();
        if modes.sgr_mouse {
            MouseProtocolEncoding::Sgr
        } else if modes.utf8_mouse {
            MouseProtocolEncoding::Utf8
        } else {
            MouseProtocolEncoding::Default
        }
    }

    /// Returns what is written back to the child for an event: bytes for the
    /// child as they are, and for a color query the terminal's own format around
    /// the color that the palette holds.
    fn reply(&self, event: &Event) -> (reply: Option<Vec<u8>>)
        ensures
            match reply_to(said_by(*event), self.host) {
                Some(bytes) => reply matches Some(text) && text@ == bytes,
                None => reply is None,
            },
    {
        match hear(event) {
            Heard::Write(text) => Some(text),
            Heard::Query(index) => answer_with(event, resolve_color(index, self.host)),
            Heard::Other => None,
        }
    }

    /// Takes any bytes that are to be written back to the child (status and
    /// identity reports, and answers to color queries), leaving the buffer empty.
    pub fn take_pty_writes(&mut self) -> (bytes: Vec<u8>)
        ensures
            bytes@ == joined(old(self)@.reports),
            final(self)@ == (Screen { reports: Seq::empty(), ..old(self)@ }),
    {
        let mut bytes: Vec<u8> = Vec::new();
        let mut more: bool = true;
        assert(bytes@ + joined(self@.reports) =~= joined(old(self)@.reports));
        while more
            invariant
                self.host == old(self).host,
                story_of(self.engine) == story_of(old(self).engine),
                bytes@ + joined(replies(said_of(self.engine), self.host)) == joined(
                    old(self)@.reports,
                ),
                !more ==> said_of(self.engine).len() == 0,
            decreases said_of(self.engine).len(), (if more { 1int } else { 0int }),
        {
            let ghost left = said_of(self.engine);
            match self.engine.next_event() {
                Some(event) => {
                    let ghost rest = replies(left.skip(1), self.host);
                    let ghost before = bytes@;
                    if let Some(text) = self.reply(&event) {
                        let mut text: Vec<u8> = text;
                        proof {
                            assert((seq![text@] + rest).skip(1) =~= rest);
                            assert((before + text@) + joined(rest) =~= before + (text@ + joined(
                                rest,
                            )));
                        }
                        bytes.append(&mut text);
                    }
                },
                None => {
                    more = false;
                },
            }
        }
        assert(bytes@ + joined(self@.reports) =~= bytes@);
        assert(self@.reports =~= Seq::empty());
        bytes
    }

    /// Returns the visible cursor position as viewport `(row, col)`, or `None`
    /// when the cursor is hidden or the viewport is scrolled up into history.
    pub fn cursor(&self) -> (position: Option<(u16, u16)>)
        ensures
            position == (if self@.modes.show_cursor && self@.display_offset == 0 {
                Some((self@.cursor_line, self@.cursor_column))
            } else {
                None
            }),
    {
        if !self.engine.modes().show_cursor || self.engine.display_offset() != 0 {
            return None;
        }
        Some(self.engine.cursor())
    }

    /// Returns the retained line that the view starts with.
    fn top_line(&self) -> (top: usize)
        ensures
            top == self@.view_top(),
            top <= MAX_HISTORY,
            top + self@.rows <= self@.lines.len(),
    {
        self.engine.history_size().saturating_sub(self.engine.display_offset())
    }

    /// Returns how the engine counts a retained line.
    fn engine_row(&self, line: usize) -> (row: i32)
        requires
            line < self@.lines.len(),
        ensures
            cell_line(display_after(self@.story), row as int) == line,
    {
        let history: usize = self.engine.history_size();
        if line >= history {
            (line - history) as i32
        } else {
            -((history - line) as i32)
        }
    }

    /// Returns the rendered cell at viewport `(row, col)`.
    pub fn cell(&self, row: u16, col: u16) -> (rendered: RenderCell)
        requires
            row < self@.rows || self@.view_top() + row < self@.lines.len(),
            col < self@.cols,
        ensures
            self@.view_top() + row < self@.lines.len(),
            rendered == RenderCell::rendering(self@.lines[self@.view_top() + row][col as int]),
            rendered.glyph() == self@.lines[self@.view_top() + row][col as int].ch,
            rendered.look() == resolved_style(self@.lines[self@.view_top() + row][col as int]),
            rendered.skipped()
                == self@.lines[self@.view_top() + row][col as int].flags.makes_room(),
    {
        let line: usize = self.top_line() + row as usize;
        let at: i32 = self.engine_row(line);
        let column: usize = col as usize;
        RenderCell::of(
            ScreenCell {
                ch: self.engine.glyph_at(at, column),
                fg: self.engine.foreground_at(at, column),
                bg: self.engine.background_at(at, column),
                flags: self.engine.flags_at(at, column),
            },
        )
    }

    /// Appends the text of one retained line between two columns.
    fn push_row_text(&self, out: &mut String, row: usize, from: usize, to: usize)
        ensures
            final(out)@ == old(out)@ + self@.row_text(row as int, from as int, to as int),
    {
        let (rows, columns): (u16, u16) = self.engine.size();
        let history: usize = self.engine.history_size();
        if row >= history && row - history >= rows as usize {
            proof {
                assert(cells_between(Seq::<ScreenCell>::empty(), from as int, smaller(
                    to as int,
                    self@.cols as int,
                )) =~= Seq::empty());
                assert(self@.row_text(row as int, from as int, to as int) =~= Seq::empty());
                assert(out@ =~= old(out)@ + self@.row_text(row as int, from as int, to as int));
            }
            return;
        }
        let ghost line = self@.lines[row as int];
        assert(self@.line(row as int) == line);
        let at: i32 = self.engine_row(row);
        let cols: usize = columns as usize;
        let end: usize = if to <= cols {
            to
        } else {
            cols
        };
        assert(line.len() == cols);
        let ghost cells = cells_between(line, from as int, smaller(to as int, self@.cols as int));
        let mut text: String = String::new();
        let mut col: usize = from;
        assert(text@ =~= Seq::<char>::empty());
        if from < end {
            assert(cells =~= line.subrange(from as int, end as int));
            assert(line.subrange(from as int, from as int) =~= Seq::<ScreenCell>::empty());
        } else {
            assert(cells =~= Seq::empty());
        }
        while col < end
            invariant
                end <= cols == line.len(),
                cols == self@.cols,
                row < self@.lines.len(),
                line == self@.lines[row as int],
                cell_line(display_after(self@.story), at as int) == row,
                from <= col,
                from < end ==> col <= end,
                from < end ==> text@ == glyphs(line.subrange(from as int, col as int)),
                from >= end ==> text@ == Seq::<char>::empty() && col == from,
            decreases end - col,
        {
            let flags: CellFlags = self.engine.flags_at(at, col);
            let ghost cell = line[col as int];
            assert(line.subrange(from as int, col + 1).drop_last() =~= line.subrange(
                from as int,
                col as int,
            ));
            assert(line.subrange(from as int, col + 1).last() == cell);
            if !flags.is_spacer() {
                let glyph: char = self.engine.glyph_at(at, col);
                text.push(glyph);
            }
            col = col + 1;
        }
        assert(text@ == glyphs(cells));
        let trimmed: String = trim_trailing_blanks(&text);
        out.append(trimmed.as_str());
    }

    /// Returns the text of the linear span of retained lines from
    /// `(top, start_col)` to `(bot, end_col)`: the first line from `start_col`,
    /// whole lines between, and the last line up to `end_col`, with per-line
    /// trailing blanks trimmed.
    pub fn lines_text(&self, top: usize, start_col: u16, bot: usize, end_col: u16) -> (text: String)
        ensures
            text@ == self@.span_text(top as int, start_col as int, bot as int, end_col as int),
    {
        let mut out: String = String::new();
        if top > bot {
            assert(out@ =~= Seq::<char>::empty());
            return out;
        }
        let (_, columns): (u16, u16) = self.engine.size();
        let cols: usize = columns as usize;
        let first_end: usize = if top == bot {
            end_col as usize
        } else {
            cols
        };
        self.push_row_text(&mut out, top, start_col as usize, first_end);
        assert(out@ =~= self@.row_text(top as int, start_col as int, first_end as int));
        let mut row: usize = top;
        while row < bot
            invariant
                top <= row <= bot,
                cols == self@.cols,
                out@ == self@.span_text(
                    top as int,
                    start_col as int,
                    row as int,
                    if row == bot {
                        end_col as int
                    } else {
                        cols as int
                    },
                ),
            decreases bot - row,
        {
            out.push('\n');
            row = row + 1;
            let row_end: usize = if row == bot {
                end_col as usize
            } else {
                cols
            };
            self.push_row_text(&mut out, row, 0, row_end);
        }
        out
    }

    /// Returns the text of the linear selection from viewport `(top, start_col)`
    /// to `(bot, end_col)`.
    pub fn contents_between(&self, top: u16, start_col: u16, bot: u16, end_col: u16) -> (
        text: String)
        ensures
            text@ == self@.span_text(
                self@.view_top() + top,
                start_col as int,
                self@.view_top() + bot,
                end_col as int,
            ),
    {
        let view_top: usize = self.top_line();
        self.lines_text(view_top + top as usize, start_col, view_top + bot as usize, end_col)
    }

    /// Returns the text that the viewport shows.
    pub fn screen_text(&self) -> (text: String)
        ensures
            text@ == self@.span_text(
                self@.view_top(),
                0,
                self@.view_top() + self@.rows - 1,
                self@.cols as int,
            ),
    {
        let (rows, cols): (u16, u16) = self.engine.size();
        if rows == 0 {
            let text: String = String::new();
            assert(text@ =~= Seq::<char>::empty());
            return text;
        }
        self.contents_between(0, 0, rows - 1, cols)
    }
}

/// Returns `text` without the blanks it ends with.
fn trim_trailing_blanks(text: &String) -> (out: String)
    ensures
        out@ == without_trailing_blanks(text@),
{
    let whole: &str = text.as_str();
    let len: usize = whole.unicode_len();
    let mut end: usize = len;
    assert(text@.take(len as int) =~= text@);
    while end > 0 && whole.get_char(end - 1) == ' '
        invariant
            whole@ == text@,
            end <= len == text@.len(),
            without_trailing_blanks(text@) == without_trailing_blanks(text@.take(end as int)),
        decreases end,
    {
        assert(text@.take(end as int).drop_last() =~= text@.take(end - 1));
        assert(text@.take(end as int).last() == text@[end - 1]);
        end = end - 1;
    }
    assert(text@.take(end as int) == without_trailing_blanks(text@)) by {
        if end > 0 {
            assert(text@.take(end as int).last() == text@[end - 1]);
        }
    }
    assert(text@.subrange(0, end as int) =~= text@.take(end as int));
    whole.substring_char(0, end).to_string()
}

/// What the terminal says is answered in the order in which it was said.
pub proof fn replies_follow_their_order(
    first: Seq<Said>,
    second: Seq<Said>,
    host: Option<HostColors>,
)
    ensures
        replies(first + second, host) == replies(first, host) + replies(second, host),
    decreases first.len(),
{
    if first.len() == 0 {
        assert(first + second =~= second);
        assert(replies(first, host) + replies(second, host) =~= replies(second, host));
    } else {
        replies_follow_their_order(first.skip(1), second, host);
        assert((first + second).skip(1) =~= first.skip(1) + second);
        assert(replies(first + second, host) =~= replies(first, host) + replies(second, host));
    }
}

/// A terminal that neither asks for a color nor writes to the child has nothing
/// written back to it.
pub proof fn only_questions_and_writes_are_answered(said: Seq<Said>, host: Option<HostColors>)
    requires
        forall|i: int| 0 <= i < said.len() ==> #[trigger] said[i] == Said::Other,
    ensures
        replies(said, host) == Seq::<Seq<u8>>::empty(),
    decreases said.len(),
{
    if said.len() > 0 {
        assert forall|i: int| 0 <= i < said.skip(1).len() implies #[trigger] said.skip(1)[i]
            == Said::Other by {
            assert(said.skip(1)[i] == said[i + 1]);
        }
        only_questions_and_writes_are_answered(said.skip(1), host);
    }
}

/// A color query is answered once, with the color that the palette holds. A
/// child that asks for the background is told the host's, so that it can theme
/// itself for the real terminal; and a dark one where the host's is not known.
pub proof fn a_color_query_is_answered_once(
    index: usize,
    answers: Map<Rgb, Seq<u8>>,
    host: Option<HostColors>,
)
    ensures
        replies(seq![Said::Query { index, answers }], host) == seq![
            answers[query_color(index as int, host)],
        ],
        query_color(NAMED_BACKGROUND as int, host) == (match host {
            Some(colors) => colors.background,
            None => gray(FALLBACK_BACKGROUND),
        }),
{
    let said = seq![Said::Query { index, answers }];
    assert(said.skip(1) =~= Seq::empty());
    assert(replies(said.skip(1), host) =~= Seq::empty());
    assert(replies(said, host) =~= seq![answers[query_color(index as int, host)]]);
}

/// The text of a span is the text of its first part, a line break and the text
/// of the rest, wherever it is cut between two lines.
pub proof fn a_span_splits_between_lines(
    screen: Screen,
    top: int,
    start: int,
    cut: int,
    bot: int,
    end: int,
)
    requires
        top <= cut < bot,
    ensures
        screen.span_text(top, start, bot, end) == screen.span_text(
            top,
            start,
            cut,
            screen.cols as int,
        ).push('\n') + screen.span_text(cut + 1, 0, bot, end),
    decreases bot - cut,
{
    let cols = screen.cols as int;
    if cut + 1 < bot {
        a_span_splits_between_lines(screen, top, start, cut, bot - 1, cols);
        let head = screen.span_text(top, start, cut, cols).push('\n');
        let middle = screen.span_text(cut + 1, 0, bot - 1, cols);
        assert((head + middle).push('\n') =~= head + middle.push('\n'));
        let last = screen.row_text(bot, 0, end);
        assert((head + middle.push('\n')) + last =~= head + (middle.push('\n') + last));
    }
}

/// Scrolling moves the view and nothing else: the retained lines keep their
/// text, and scrolling back to a position that was reachable restores the
/// screen.
pub proof fn scrolling_only_moves_the_view(
    screen: Screen,
    offset: usize,
    top: int,
    start: int,
    bot: int,
    end: int,
)
    requires
        screen.lines.len() <= usize::MAX,
    ensures
        screen.scrolled(offset).span_text(top, start, bot, end) == screen.span_text(
            top,
            start,
            bot,
            end,
        ),
        screen.scrolled(offset).display_offset <= screen.history(),
        screen.display_offset <= screen.history() ==> screen.scrolled(offset).scrolled(
            screen.display_offset,
        ).display_offset == screen.display_offset,
        screen.scrolled(offset).lines == screen.lines,
    decreases bot - top,
{
    if top < bot {
        scrolling_only_moves_the_view(screen, offset, top, start, bot - 1, screen.cols as int);
    }
}

/// The sixteen ANSI names and the 256 palette slots keep their slot, and the
/// named default colors resolve to the host default.
pub proof fn palette_slots_are_kept(number: usize, index: u8)
    ensures
        shown_color(CellColor::Indexed(index)) == Color::Indexed(index),
        number <= 15 ==> shown_color(CellColor::Named(number)) == Color::Indexed(number as u8),
        number > 15 ==> shown_color(CellColor::Named(number)) == Color::Reset,
        shown_color(CellColor::Named(NAMED_FOREGROUND)) == Color::Reset,
        shown_color(CellColor::Named(NAMED_BACKGROUND)) == Color::Reset,
{
}

} // verus!
