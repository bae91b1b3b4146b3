//! The terminal engine: `alacritty_terminal` behind plain values.
//!
//! What a terminal shows is a function of what it has been through: how it was
//! opened, what it was fed, how it was resized and scrolled. The engine carries
//! that story along, and everything it shows is stated over it.

use vstd::prelude::*;
use alacritty_terminal::event::{Event, EventListener};
use alacritty_terminal::grid::{Dimensions, Scroll};
use alacritty_terminal::index::{Column, Line};
use alacritty_terminal::term::cell::Flags;
use alacritty_terminal::term::test::TermSize;
use alacritty_terminal::term::{Config, TermMode};
use alacritty_terminal::vte::ansi::{Color, Processor};
use alacritty_terminal::Term;
use crate::emulator::{blank_cell, initial_modes, CellColor, CellFlags, Rgb, ScreenCell, ScreenModes};

verus! {

/// Smallest number of rows that the terminal works with.
pub const MIN_ROWS: u16 = 1;

/// Smallest number of columns that the terminal works with.
pub const MIN_COLUMNS: u16 = 2;

/// Largest history that the terminal can address.
pub const MAX_HISTORY: usize = 0x7fff_ffff;

/// `crossbeam_channel::Sender`, which carries events out of a terminal.
#[verifier::external_type_specification]
#[verifier::external_body]
#[verifier::reject_recursive_types(T)]
pub struct ExSender<T>(crossbeam_channel::Sender<T>);

/// `alacritty_terminal::event::Event`, what a terminal tells its owner.
#[verifier::external_type_specification]
#[verifier::external_body]
pub struct ExEvent(alacritty_terminal::event::Event);

/// What happens to a terminal.
pub enum TermAction {
    /// It is opened.
    Open {
        /// Rows.
        rows: u16,
        /// Columns.
        cols: u16,
        /// Lines of history that it retains.
        history: usize,
    },
    /// It interprets output of the child.
    Feed(Seq<u8>),
    /// It gets another size.
    Resize {
        /// Rows.
        rows: u16,
        /// Columns.
        cols: u16,
    },
    /// Its view moves to an offset into history.
    Scroll(usize),
}

/// What a terminal shows.
#[verifier::ext_equal]
pub struct Display {
    /// Rows of the screen.
    pub rows: u16,
    /// Columns of the screen.
    pub cols: u16,
    /// Lines the view is scrolled up into history.
    pub display_offset: usize,
    /// The retained lines, oldest first; the last ones are the live screen.
    pub lines: Seq<Seq<ScreenCell>>,
    /// Private modes.
    pub modes: ScreenModes,
    /// Row of the cursor on the live screen.
    pub cursor_line: u16,
    /// Column of the cursor.
    pub cursor_column: u16,
}

/// What a terminal shows that has been opened and nothing more.
pub open spec fn blank_display(rows: u16, cols: u16) -> Display {
    Display {
        rows,
        cols,
        display_offset: 0,
        lines: Seq::new(rows as nat, |i: int| Seq::new(cols as nat, |j: int| blank_cell())),
        modes: initial_modes(),
        cursor_line: 0,
        cursor_column: 0,
    }
}

/// What a terminal shows after a story, as `alacritty_terminal` interprets it.
pub uninterp spec fn display_after(story: Seq<TermAction>) -> Display;

/// What a terminal tells its owner, as far as the owner listens.
#[verifier::ext_equal]
pub enum Said {
    /// These bytes are for the child.
    Write(Seq<u8>),
    /// The child asks for a color.
    Query {
        /// Slot of the palette, or the number of a named color.
        index: usize,
        /// The answer in the terminal's own format, for each color.
        answers: Map<Rgb, Seq<u8>>,
    },
    /// Something else.
    Other,
}

/// What an event says.
pub uninterp spec fn said_by(event: Event) -> Said;

/// What the last action of a story makes a terminal say.
pub uninterp spec fn said_in(story: Seq<TermAction>) -> Seq<Said>;

/// What a terminal has been through.
pub uninterp spec fn story_of(engine: Engine) -> Seq<TermAction>;

/// What a terminal has said that has not been taken yet.
pub uninterp spec fn said_of(engine: Engine) -> Seq<Said>;

/// An event as its owner hears it.
pub enum Heard {
    /// Bytes for the child.
    Write(Vec<u8>),
    /// A question for a color.
    Query(usize),
    /// Something else.
    Other,
}

/// What listens to a terminal.
pub struct EventProxy {
    /// Where events go.
    events: crossbeam_channel::Sender<Event>,
}

impl EventListener for EventProxy {
    /// Passes on what `alacritty_terminal` says through
    /// `crossbeam_channel::Sender::send`.
    #[verifier::external_body]
    fn send_event(&self, event: Event) {
        let _ = self.events.send(event);
    }
}

/// The variants of `alacritty_terminal::event::Event` that the owner listens to:
/// `PtyWrite` with its text and `ColorRequest` with its index.
#[verifier::external_body]
pub(crate) fn hear(event: &Event) -> (heard: Heard)
    ensures
        match said_by(*event) {
            Said::Write(bytes) => heard matches Heard::Write(text) && text@ == bytes,
            Said::Query { index, .. } => heard == Heard::Query(index),
            Said::Other => heard is Other,
        },
{
    match event {
        Event::PtyWrite(text) => Heard::Write(text.clone().into_bytes()),
        Event::ColorRequest(index, _) => Heard::Query(*index),
        _ => Heard::Other,
    }
}

/// The formatter that an `alacritty_terminal::event::Event::ColorRequest` carries:
/// the answer that tells the child `color`. No other event has an answer. How the
/// answer is written is left to the formatter.
#[verifier::external_body]
pub(crate) fn answer_with(event: &Event, color: Rgb) -> (answer: Option<Vec<u8>>)
    ensures
        match said_by(*event) {
            Said::Query { answers, .. } => answer matches Some(bytes) && bytes@ == answers[color],
            _ => answer is None,
        },
{
    match event {
        Event::ColorRequest(_, format) => {
            let named = alacritty_terminal::vte::ansi::Rgb { r: color.r, g: color.g, b: color.b };
            Some(format(named).into_bytes())
        },
        _ => None,
    }
}

/// An `alacritty_terminal::Term` with its parser and the events it sends.
#[verifier::external_body]
pub struct Engine {
    term: Term<EventProxy>,
    parser: Processor,
    events: crossbeam_channel::Receiver<Event>,
}

/// `alacritty_terminal::Term::new` and the parser that feeds it. The terminal is
/// blank, its view is at the live screen, and it has said nothing.
#[verifier::external_body]
pub(crate) fn open_terminal(rows: u16, cols: u16, history: usize) -> (engine: Engine)
    requires
        rows >= MIN_ROWS,
        cols >= MIN_COLUMNS,
        history <= MAX_HISTORY,
    ensures
        story_of(engine) == seq![TermAction::Open { rows, cols, history }],
        display_after(story_of(engine)) == blank_display(rows, cols),
        said_of(engine) == Seq::<Said>::empty(),
{
    let (sender, events) = crossbeam_channel::unbounded();
    let config = Config { scrolling_history: history, ..Config::default() };
    let size = TermSize::new(cols as usize, rows as usize);
    let term = Term::new(config, &size, EventProxy { events: sender });
    Engine { term, parser: Processor::new(), events }
}

impl Engine {
    /// `alacritty_terminal::vte::ansi::Processor::advance`: the terminal
    /// interprets `bytes`. Its size does not change.
    #[verifier::external_body]
    pub(crate) fn feed(&mut self, bytes: &Vec<u8>)
        ensures
            story_of(*final(self)) == story_of(*old(self)).push(TermAction::Feed(bytes@)),
            display_after(story_of(*final(self))).rows == display_after(story_of(*old(self))).rows,
            display_after(story_of(*final(self))).cols == display_after(story_of(*old(self))).cols,
            said_of(*final(self)) == said_of(*old(self)) + said_in(story_of(*final(self))),
    {
        self.parser.advance(&mut self.term, bytes);
    }

    /// `crossbeam_channel::Receiver::try_recv` on the terminal's events: takes
    /// the oldest one, if there is any.
    #[verifier::external_body]
    pub(crate) fn next_event(&mut self) -> (event: Option<Event>)
        ensures
            story_of(*final(self)) == story_of(*old(self)),
            match event {
                Some(event) => said_of(*old(self)).len() > 0 && said_by(event) == said_of(
                    *old(self),
                )[0] && said_of(*final(self)) == said_of(*old(self)).skip(1),
                None => said_of(*old(self)).len() == 0 && said_of(*final(self)).len() == 0,
            },
    {
        self.events.try_recv().ok()
    }

    /// `alacritty_terminal::Term::resize`: the terminal gets another size and
    /// reflows its history. It says nothing.
    #[verifier::external_body]
    pub(crate) fn resize(&mut self, rows: u16, cols: u16)
        requires
            rows >= MIN_ROWS,
            cols >= MIN_COLUMNS,
        ensures
            story_of(*final(self)) == story_of(*old(self)).push(TermAction::Resize { rows, cols }),
            display_after(story_of(*final(self))).rows == rows,
            display_after(story_of(*final(self))).cols == cols,
            said_of(*final(self)) == said_of(*old(self)),
    {
        self.term.resize(TermSize::new(cols as usize, rows as usize));
    }

    /// `alacritty_terminal::Term::scroll_display` by a number of lines: the view
    /// moves to an offset that lies inside the history, and nothing else of what
    /// is shown changes. It asks nothing and writes nothing to the child.
    #[verifier::external_body]
    pub(crate) fn scroll(&mut self, offset: usize, delta: i32)
        requires
            offset <= display_after(story_of(*old(self))).lines.len() - display_after(
                story_of(*old(self)),
            ).rows,
            offset - display_after(story_of(*old(self))).display_offset == delta,
        ensures
            story_of(*final(self)) == story_of(*old(self)).push(TermAction::Scroll(offset)),
            display_after(story_of(*final(self))) == (Display {
                display_offset: offset,
                ..display_after(story_of(*old(self)))
            }),
            said_of(*final(self)) == said_of(*old(self)) + said_in(story_of(*final(self))),
            forall|i: int|
                0 <= i < said_in(story_of(*final(self))).len() ==> #[trigger] said_in(
                    story_of(*final(self)),
                )[i] == Said::Other,
    {
        self.term.scroll_display(Scroll::Delta(delta));
    }

    /// `alacritty_terminal::grid::Dimensions::screen_lines` and `columns`: the
    /// size of the screen. Every retained line is as wide as the screen.
    #[verifier::external_body]
    pub(crate) fn size(&self) -> (size: (u16, u16))
        ensures
            size.0 == display_after(story_of(*self)).rows,
            size.1 == display_after(story_of(*self)).cols,
            forall|i: int|
                0 <= i < display_after(story_of(*self)).lines.len() ==> (#[trigger] display_after(
                    story_of(*self),
                ).lines[i]).len() == size.1,
    {
        (self.term.screen_lines() as u16, self.term.columns() as u16)
    }

    /// `alacritty_terminal::grid::Dimensions::history_size`: how many of the
    /// retained lines lie above the live screen.
    #[verifier::external_body]
    pub(crate) fn history_size(&self) -> (count: usize)
        ensures
            count + display_after(story_of(*self)).rows == display_after(
                story_of(*self),
            ).lines.len(),
            count <= MAX_HISTORY,
    {
        self.term.history_size()
    }

    /// `alacritty_terminal::grid::Grid::display_offset`: how far the view is
    /// scrolled up, never further than the history may reach.
    #[verifier::external_body]
    pub(crate) fn display_offset(&self) -> (offset: usize)
        ensures
            offset == display_after(story_of(*self)).display_offset,
            offset <= MAX_HISTORY,
    {
        self.term.grid().display_offset()
    }

    /// `alacritty_terminal::Term::mode`: the private modes.
    #[verifier::external_body]
    pub(crate) fn modes(&self) -> (modes: ScreenModes)
        ensures
            modes == display_after(story_of(*self)).modes,
    {
        let mode = self.term.mode();
        ScreenModes {
            alternate_screen: mode.contains(TermMode::ALT_SCREEN),
            bracketed_paste: mode.contains(TermMode::BRACKETED_PASTE),
            application_cursor: mode.contains(TermMode::APP_CURSOR),
            show_cursor: mode.contains(TermMode::SHOW_CURSOR),
            mouse_motion: mode.contains(TermMode::MOUSE_MOTION),
            mouse_drag: mode.contains(TermMode::MOUSE_DRAG),
            mouse_click: mode.contains(TermMode::MOUSE_REPORT_CLICK),
            sgr_mouse: mode.contains(TermMode::SGR_MOUSE),
            utf8_mouse: mode.contains(TermMode::UTF8_MOUSE),
        }
    }

    /// The `cursor` of `alacritty_terminal::grid::Grid`: its row on the live
    /// screen and its column.
    #[verifier::external_body]
    pub(crate) fn cursor(&self) -> (position: (u16, u16))
        ensures
            position.0 == display_after(story_of(*self)).cursor_line,
            position.1 == display_after(story_of(*self)).cursor_column,
    {
        let point = self.term.grid().cursor.point;
        (point.line.0 as u16, point.column.0 as u16)
    }

    /// The glyph of a cell of `alacritty_terminal::Term::grid`. Rows count from
    /// the top of the live screen; those of the history are negative.
    #[verifier::external_body]
    pub(crate) fn glyph_at(&self, row: i32, col: usize) -> (glyph: char)
        requires
            0 <= cell_line(display_after(story_of(*self)), row as int) < display_after(
                story_of(*self),
            ).lines.len(),
            col < display_after(story_of(*self)).cols,
        ensures
            glyph == display_after(story_of(*self)).lines[cell_line(
                display_after(story_of(*self)),
                row as int,
            )][col as int].ch,
    {
        self.term.grid()[Line(row)][Column(col)].c
    }

    /// The foreground of a cell of `alacritty_terminal::Term::grid`.
    #[verifier::external_body]
    pub(crate) fn foreground_at(&self, row: i32, col: usize) -> (color: CellColor)
        requires
            0 <= cell_line(display_after(story_of(*self)), row as int) < display_after(
                story_of(*self),
            ).lines.len(),
            col < display_after(story_of(*self)).cols,
        ensures
            color == display_after(story_of(*self)).lines[cell_line(
                display_after(story_of(*self)),
                row as int,
            )][col as int].fg,
    {
        match self.term.grid()[Line(row)][Column(col)].fg {
            Color::Named(name) => CellColor::Named(name as usize),
            Color::Indexed(index) => CellColor::Indexed(index),
            Color::Spec(color) => CellColor::Spec(Rgb { r: color.r, g: color.g, b: color.b }),
        }
    }

    /// The background of a cell of `alacritty_terminal::Term::grid`.
    #[verifier::external_body]
    pub(crate) fn background_at(&self, row: i32, col: usize) -> (color: CellColor)
        requires
            0 <= cell_line(display_after(story_of(*self)), row as int) < display_after(
                story_of(*self),
            ).lines.len(),
            col < display_after(story_of(*self)).cols,
        ensures
            color == display_after(story_of(*self)).lines[cell_line(
                display_after(story_of(*self)),
                row as int,
            )][col as int].bg,
    {
        match self.term.grid()[Line(row)][Column(col)].bg {
            Color::Named(name) => CellColor::Named(name as usize),
            Color::Indexed(index) => CellColor::Indexed(index),
            Color::Spec(color) => CellColor::Spec(Rgb { r: color.r, g: color.g, b: color.b }),
        }
    }

    /// The attributes of a cell of `alacritty_terminal::Term::grid`.
    #[verifier::external_body]
    pub(crate) fn flags_at(&self, row: i32, col: usize) -> (flags: CellFlags)
        requires
            0 <= cell_line(display_after(story_of(*self)), row as int) < display_after(
                story_of(*self),
            ).lines.len(),
            col < display_after(story_of(*self)).cols,
        ensures
            flags == display_after(story_of(*self)).lines[cell_line(
                display_after(story_of(*self)),
                row as int,
            )][col as int].flags,
    {
        let flags = self.term.grid()[Line(row)][Column(col)].flags;
        CellFlags {
            bold: flags.contains(Flags::BOLD),
            dim: flags.contains(Flags::DIM),
            italic: flags.contains(Flags::ITALIC),
            underlined: flags.intersects(Flags::ALL_UNDERLINES),
            inverse: flags.contains(Flags::INVERSE),
            hidden: flags.contains(Flags::HIDDEN),
            strikeout: flags.contains(Flags::STRIKEOUT),
            wide_spacer: flags.contains(Flags::WIDE_CHAR_SPACER),
            leading_spacer: flags.contains(Flags::LEADING_WIDE_CHAR_SPACER),
        }
    }
}

/// The retained line behind a row that counts from the top of the live screen.
pub open spec fn cell_line(display: Display, row: int) -> int {
    display.lines.len() - display.rows + row
}

} // verus!
