use muster::emulator::{
    to_color, CellColor, Color, MouseProtocolEncoding, MouseProtocolMode, Rgb, TerminalEmulator,
    NAMED_BACKGROUND, NAMED_FOREGROUND,
};
use muster::palette::{gray_of, resolve_color, HostColors, FALLBACK_BACKGROUND};
use muster::selection::BufferCell;

/// A terminal without host colors.
fn terminal(rows: u16, cols: u16, scrollback: usize) -> TerminalEmulator {
    TerminalEmulator::new(rows, cols, scrollback, None)
}

fn feed(emulator: &mut TerminalEmulator, bytes: &[u8]) {
    emulator.process(&bytes.to_vec());
}

/// A child querying the background color (OSC 11) must get an answer at all, or
/// an agent that themes off it renders invisible text.
#[test]
fn a_background_color_query_is_answered() {
    let mut emulator = terminal(10, 40, 0);
    feed(&mut emulator, b"\x1b]11;?\x1b\\");
    let reply = String::from_utf8(emulator.take_pty_writes()).expect("utf8 color reply");
    assert!(
        reply.starts_with("\x1b]11;rgb:"),
        "the background query is answered, got {reply:?}"
    );
}

/// The reported background is the detected host color, so an agent themes for
/// the real terminal - a light host reports light, not a dark guess.
#[test]
fn a_color_query_reports_the_host_background() {
    let light = Rgb { r: 0xF5, g: 0xF5, b: 0xF0 };
    let dark_fg = Rgb { r: 0x10, g: 0x10, b: 0x10 };
    assert_eq!(
        resolve_color(
            NAMED_BACKGROUND,
            Some(HostColors { background: light, foreground: dark_fg })
        ),
        light,
        "a light host is reported light, not a dark fallback"
    );
}

/// Without a detected host, the background falls back to dark - the common
/// terminal default.
#[test]
fn a_color_query_falls_back_dark_without_a_host() {
    assert_eq!(resolve_color(NAMED_BACKGROUND, None), gray_of(FALLBACK_BACKGROUND));
    assert_eq!(gray_of(FALLBACK_BACKGROUND), Rgb { r: 0x12, g: 0x12, b: 0x12 });
}

/// The named default foreground and background must resolve to the host
/// default, not a palette index.
#[test]
fn the_default_colors_resolve_to_the_host_default() {
    assert_eq!(to_color(CellColor::Named(NAMED_BACKGROUND)), Color::Reset);
    assert_eq!(to_color(CellColor::Named(NAMED_FOREGROUND)), Color::Reset);
}

/// The 16 ANSI names and 256-color indices keep their palette slot so the host
/// terminal applies its own theme.
#[test]
fn palette_colors_keep_their_index() {
    // Red and bright white among the named colors.
    assert_eq!(to_color(CellColor::Named(1)), Color::Indexed(1));
    assert_eq!(to_color(CellColor::Named(15)), Color::Indexed(15));
    assert_eq!(to_color(CellColor::Indexed(200)), Color::Indexed(200));
}

/// True-color specifications pass through as RGB.
#[test]
fn true_color_specs_become_rgb() {
    assert_eq!(
        to_color(CellColor::Spec(Rgb { r: 10, g: 20, b: 30 })),
        Color::Rgb(10, 20, 30)
    );
}

/// The engine answers a color query with exactly the host's color.
#[test]
fn the_engine_reports_the_host_color() {
    let host = HostColors {
        background: Rgb { r: 0xF5, g: 0x01, b: 0xF0 },
        foreground: Rgb { r: 0x10, g: 0x10, b: 0x10 },
    };
    let mut emulator = TerminalEmulator::new(10, 40, 0, Some(host));
    feed(&mut emulator, b"\x1b]11;?\x1b\\");
    assert_eq!(
        String::from_utf8(emulator.take_pty_writes()).expect("utf8 color reply"),
        "\x1b]11;rgb:f5f5/0101/f0f0\x1b\\"
    );
    assert!(emulator.take_pty_writes().is_empty(), "a report is taken once");
}

/// Status queries are answered too, in the order in which they came.
#[test]
fn reports_come_in_order() {
    let mut emulator = terminal(10, 40, 0);
    feed(&mut emulator, b"\x1b[5n\x1b[6n");
    assert_eq!(emulator.take_pty_writes(), b"\x1b[0n\x1b[1;1R".to_vec());
}

/// Color answers keep their place among the reports; what asks for nothing, like
/// a bell or a title, is not answered, and neither is a scrolled view.
#[test]
fn color_answers_keep_their_place() {
    let mut emulator = terminal(2, 10, 100);
    feed(&mut emulator, b"a\r\nb\r\nc\x07\x1b]0;title\x07\x1b[5n\x1b]4;1;?\x1b\\");
    emulator.set_scrollback(1);
    assert_eq!(emulator.scrollback(), 1);
    feed(&mut emulator, b"\x1b[5n");
    assert_eq!(
        String::from_utf8(emulator.take_pty_writes()).expect("utf8 replies"),
        "\x1b[0n\x1b]4;1;rgb:8080/0000/0000\x1b\\\x1b[0n"
    );
}

/// A new screen is blank, with the cursor in its corner.
#[test]
fn a_new_screen_is_blank() {
    let emulator = terminal(4, 10, 100);
    assert_eq!(emulator.size(), (4, 10));
    assert_eq!(emulator.history_len(), 0);
    assert_eq!(emulator.scrollback(), 0);
    assert_eq!(emulator.cursor(), Some((0, 0)));
    assert_eq!(emulator.screen_text(), "\n\n\n");
    let cell = emulator.cell(0, 0);
    assert_eq!(cell.ch(), ' ');
    assert_eq!(cell.style().fg, Color::Reset);
    assert_eq!(cell.style().bg, Color::Reset);
    assert!(!cell.is_spacer());
}

/// Text lands in cells with its attributes.
#[test]
fn cells_carry_their_attributes() {
    let mut emulator = terminal(4, 20, 100);
    feed(&mut emulator, b"\x1b[1;3;4;7;31;48;2;1;2;3mA\x1b[0;2;8;9;38;5;200mB");
    let first = emulator.cell(0, 0);
    assert_eq!(first.ch(), 'A');
    assert!(first.style().bold && first.style().italic && first.style().underlined);
    assert!(first.style().reversed && !first.style().dim && !first.style().hidden);
    assert_eq!(first.style().fg, Color::Indexed(1));
    assert_eq!(first.style().bg, Color::Rgb(1, 2, 3));
    let second = emulator.cell(0, 1);
    assert_eq!(second.ch(), 'B');
    assert!(second.style().dim && second.style().hidden && second.style().crossed_out);
    assert!(!second.style().bold);
    assert_eq!(second.style().fg, Color::Indexed(200));
    assert_eq!(second.style().bg, Color::Reset);
}

/// The empty half beside a wide character is marked and left out of text.
#[test]
fn wide_characters_leave_a_spacer() {
    let mut emulator = terminal(4, 20, 100);
    feed(&mut emulator, "\u{6f22}x".as_bytes());
    assert_eq!(emulator.cell(0, 0).ch(), '\u{6f22}');
    assert!(emulator.cell(0, 1).is_spacer());
    assert_eq!(emulator.contents_between(0, 0, 0, 20), "\u{6f22}x");
}

/// Spans of several rows keep their line breaks and drop trailing blanks.
#[test]
fn spans_cross_rows() {
    let mut emulator = terminal(4, 20, 100);
    feed(&mut emulator, b"one   \r\ntwo\r\nthree");
    assert_eq!(emulator.contents_between(0, 1, 2, 3), "ne\ntwo\nthr");
    assert_eq!(emulator.contents_between(2, 0, 1, 5), "");
}

/// Scrolling is clamped to the history that there is.
#[test]
fn scrolling_is_clamped_to_history() {
    let mut emulator = terminal(4, 20, 100);
    for line in 0..10 {
        feed(&mut emulator, format!("line {line}\r\n").as_bytes());
    }
    assert_eq!(emulator.history_len(), 7);
    emulator.set_scrollback(3);
    assert_eq!(emulator.scrollback(), 3);
    assert_eq!(emulator.contents_between(0, 0, 0, 20), "line 4");
    assert_eq!(emulator.cell(0, 5).ch(), '4');
    assert_eq!(emulator.cursor(), None, "no cursor while scrolled back");
    emulator.set_scrollback(usize::MAX);
    assert_eq!(emulator.scrollback(), 7);
    assert_eq!(emulator.contents_between(0, 0, 0, 20), "line 0");
    emulator.set_scrollback(0);
    assert_eq!(emulator.contents_between(0, 0, 0, 20), "line 7");
}

/// No more history is retained than asked for.
#[test]
fn history_is_limited() {
    let mut emulator = terminal(4, 20, 5);
    for line in 0..50 {
        feed(&mut emulator, format!("line {line}\r\n").as_bytes());
    }
    assert_eq!(emulator.history_len(), 5);
}

/// A resize changes the size and keeps the text.
#[test]
fn resizing_reflows() {
    let mut emulator = terminal(4, 20, 100);
    feed(&mut emulator, b"abcdefghij");
    emulator.set_size(6, 5);
    assert_eq!(emulator.size(), (6, 5));
    assert_eq!(emulator.lines_text(0, 0, 1, 5), "abcde\nfghij");
}

/// The modes that a child asks for are read back.
#[test]
fn modes_follow_the_child() {
    let mut emulator = terminal(4, 20, 100);
    assert!(!emulator.alternate_screen());
    assert!(!emulator.bracketed_paste());
    assert!(!emulator.application_cursor());
    assert_eq!(emulator.mouse_protocol_mode(), MouseProtocolMode::Off);
    assert_eq!(emulator.mouse_protocol_encoding(), MouseProtocolEncoding::Default);
    feed(&mut emulator, b"\x1b[?1049h\x1b[?2004h\x1b[?1h\x1b[?1000h\x1b[?1005h");
    assert!(emulator.alternate_screen());
    assert!(emulator.bracketed_paste());
    assert!(emulator.application_cursor());
    assert_eq!(emulator.mouse_protocol_mode(), MouseProtocolMode::PressRelease);
    assert_eq!(emulator.mouse_protocol_encoding(), MouseProtocolEncoding::Utf8);
    feed(&mut emulator, b"\x1b[?1002h\x1b[?1006h");
    assert_eq!(emulator.mouse_protocol_mode(), MouseProtocolMode::ButtonMotion);
    assert_eq!(emulator.mouse_protocol_encoding(), MouseProtocolEncoding::Sgr);
    feed(&mut emulator, b"\x1b[?1003h");
    assert_eq!(emulator.mouse_protocol_mode(), MouseProtocolMode::AnyMotion);
    feed(&mut emulator, b"\x1b[?25l");
    assert_eq!(emulator.cursor(), None, "a hidden cursor is not shown");
}

/// A span that begins below the last line selects nothing, one that ends below
/// it is cut there.
#[test]
fn spans_end_with_the_buffer() {
    let mut emulator = terminal(3, 10, 100);
    feed(&mut emulator, b"a\r\nb\r\nc");
    let last = BufferCell { row: 2, column: 0 };
    let beyond = BufferCell { row: 90, column: 4 };
    assert_eq!(emulator.extract_span(last, beyond), Some("c".to_string()));
    assert_eq!(emulator.extract_span(beyond, beyond), None);
}

/// The palette holds the color cube and the gray ramp.
#[test]
fn palette_queries_follow_xterm() {
    assert_eq!(resolve_color(16, None), Rgb { r: 0, g: 0, b: 0 });
    assert_eq!(resolve_color(231, None), Rgb { r: 255, g: 255, b: 255 });
    assert_eq!(resolve_color(196, None), Rgb { r: 255, g: 0, b: 0 });
    assert_eq!(resolve_color(232, None), Rgb { r: 8, g: 8, b: 8 });
    assert_eq!(resolve_color(255, None), Rgb { r: 238, g: 238, b: 238 });
}
