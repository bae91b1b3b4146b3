use muster::emulator::{MouseProtocolEncoding, MouseProtocolMode};
use muster::input::{
    encode_char, encode_key, encode_mouse, is_leader, mouse_button_code, wheel_arrow, KeyCode,
    KeyEvent, KeyModifiers, MouseButton, MouseEvent, MouseEventKind, MAX_LEGACY_MOUSE_COORDINATE,
};

const NONE: KeyModifiers = KeyModifiers { shift: false, alt: false, control: false };
const CONTROL: KeyModifiers = KeyModifiers { shift: false, alt: false, control: true };
const ALT: KeyModifiers = KeyModifiers { shift: false, alt: true, control: false };
const SHIFT: KeyModifiers = KeyModifiers { shift: true, alt: false, control: false };

fn key(code: KeyCode, modifiers: KeyModifiers) -> KeyEvent {
    KeyEvent::new(code, modifiers)
}

fn mouse(kind: MouseEventKind, modifiers: KeyModifiers) -> MouseEvent {
    MouseEvent { kind, column: 0, row: 0, modifiers }
}

#[test]
fn plain_char_is_utf8() {
    assert_eq!(encode_key(key(KeyCode::Char('a'), NONE)), Some(b"a".to_vec()));
}

#[test]
fn ctrl_letter_is_a_control_byte() {
    assert_eq!(encode_key(key(KeyCode::Char('c'), CONTROL)), Some(vec![0x03]));
}

#[test]
fn ctrl_non_letters_map_to_control_bytes() {
    assert_eq!(encode_key(key(KeyCode::Char(' '), CONTROL)), Some(vec![0x00]));
    assert_eq!(encode_key(key(KeyCode::Char('['), CONTROL)), Some(vec![0x1B]));
    assert_eq!(encode_key(key(KeyCode::Char('_'), CONTROL)), Some(vec![0x1F]));
    assert_eq!(encode_key(key(KeyCode::Char('?'), CONTROL)), Some(vec![0x7F]));
}

#[test]
fn enter_is_carriage_return() {
    assert_eq!(encode_key(key(KeyCode::Enter, NONE)), Some(vec![b'\r']));
}

#[test]
fn up_arrow_is_a_csi_sequence() {
    assert_eq!(encode_key(key(KeyCode::Up, NONE)), Some(b"\x1b[A".to_vec()));
}

#[test]
fn ctrl_up_carries_a_modifier_parameter() {
    assert_eq!(encode_key(key(KeyCode::Up, CONTROL)), Some(b"\x1b[1;5A".to_vec()));
}

#[test]
fn page_up_is_a_tilde_sequence() {
    assert_eq!(encode_key(key(KeyCode::PageUp, NONE)), Some(b"\x1b[5~".to_vec()));
    assert_eq!(encode_key(key(KeyCode::PageUp, CONTROL)), Some(b"\x1b[5;5~".to_vec()));
}

#[test]
fn alt_char_is_escape_prefixed() {
    assert_eq!(encode_key(key(KeyCode::Char('b'), ALT)), Some(vec![0x1B, b'b']));
}

#[test]
fn function_keys_use_ss3_and_csi_sequences() {
    assert_eq!(encode_key(key(KeyCode::F(1), NONE)), Some(b"\x1bOP".to_vec()));
    assert_eq!(encode_key(key(KeyCode::F(4), NONE)), Some(b"\x1bOS".to_vec()));
    assert_eq!(encode_key(key(KeyCode::F(5), NONE)), Some(b"\x1b[15~".to_vec()));
    assert_eq!(encode_key(key(KeyCode::F(12), NONE)), Some(b"\x1b[24~".to_vec()));
}

#[test]
fn modified_function_keys_use_the_csi_form() {
    assert_eq!(encode_key(key(KeyCode::F(1), CONTROL)), Some(b"\x1b[1;5P".to_vec()));
    assert_eq!(encode_key(key(KeyCode::F(5), SHIFT)), Some(b"\x1b[15;2~".to_vec()));
}

#[test]
fn unsupported_function_key_is_ignored() {
    assert_eq!(encode_key(key(KeyCode::F(13), NONE)), None);
}

/// SGR reports use one-based coordinates and preserve modifier bits.
#[test]
fn sgr_mouse_press_uses_terminal_coordinates() {
    assert_eq!(
        encode_mouse(
            mouse(MouseEventKind::Down(MouseButton::Left), CONTROL),
            4,
            2,
            MouseProtocolMode::ButtonMotion,
            MouseProtocolEncoding::Sgr,
        ),
        Some(b"\x1b[<16;5;3M".to_vec())
    );
}

/// Button-motion mode sends drag reports while press-release mode does not.
#[test]
fn mouse_motion_respects_the_child_requested_mode() {
    let drag = mouse(MouseEventKind::Drag(MouseButton::Left), NONE);
    assert_eq!(
        encode_mouse(
            drag,
            0,
            0,
            MouseProtocolMode::PressRelease,
            MouseProtocolEncoding::Sgr,
        ),
        None
    );
    assert_eq!(
        encode_mouse(
            drag,
            0,
            0,
            MouseProtocolMode::ButtonMotion,
            MouseProtocolEncoding::Sgr,
        ),
        Some(b"\x1b[<32;1;1M".to_vec())
    );
}

/// SGR releases retain the released button so terminal applications can
/// distinguish it.
#[test]
fn sgr_mouse_release_keeps_the_button_code() {
    assert_eq!(
        encode_mouse(
            mouse(MouseEventKind::Up(MouseButton::Right), NONE),
            1,
            3,
            MouseProtocolMode::PressRelease,
            MouseProtocolEncoding::Sgr,
        ),
        Some(b"\x1b[<2;2;4m".to_vec())
    );
}

/// Legacy mouse reports do not silently wrap coordinates they cannot encode.
#[test]
fn legacy_mouse_reports_reject_large_coordinates() {
    assert_eq!(
        encode_mouse(
            mouse(MouseEventKind::Down(MouseButton::Left), NONE),
            MAX_LEGACY_MOUSE_COORDINATE,
            0,
            MouseProtocolMode::Press,
            MouseProtocolEncoding::Default,
        ),
        None
    );
}

/// The last coordinate that the legacy form can carry is still sent.
#[test]
fn legacy_mouse_reports_reach_their_last_coordinate() {
    assert_eq!(
        encode_mouse(
            mouse(MouseEventKind::Down(MouseButton::Left), NONE),
            MAX_LEGACY_MOUSE_COORDINATE - 1,
            0,
            MouseProtocolMode::Press,
            MouseProtocolEncoding::Default,
        ),
        Some(vec![0x1b, b'[', b'M', 32, 255, 33])
    );
}

/// Coordinates beyond one byte are sent as characters of the UTF-8 form.
#[test]
fn utf8_mouse_reports_carry_large_coordinates() {
    let bytes = encode_mouse(
        mouse(MouseEventKind::Down(MouseButton::Left), NONE),
        299,
        0,
        MouseProtocolMode::PressRelease,
        MouseProtocolEncoding::Utf8,
    )
    .expect("a press is reported");
    let column = char::from_u32(300 + 32).expect("a character");
    let mut expected = vec![0x1b, b'[', b'M', 32];
    expected.extend_from_slice(column.to_string().as_bytes());
    expected.push(33);
    assert_eq!(bytes, expected);
}

/// Without mouse reporting nothing is sent.
#[test]
fn nothing_is_reported_unasked() {
    assert_eq!(
        encode_mouse(
            mouse(MouseEventKind::Down(MouseButton::Left), NONE),
            0,
            0,
            MouseProtocolMode::Off,
            MouseProtocolEncoding::Sgr,
        ),
        None
    );
}

/// A character beyond ASCII is sent as its UTF-8 bytes.
#[test]
fn wide_chars_are_sent_as_utf8() {
    assert_eq!(
        encode_key(key(KeyCode::Char('\u{e9}'), NONE)),
        Some("\u{e9}".as_bytes().to_vec())
    );
    assert_eq!(
        encode_key(key(KeyCode::Char('\u{1f600}'), ALT)),
        Some([&[0x1bu8][..], "\u{1f600}".as_bytes()].concat())
    );
}

/// The leader chord is control with its letter and nothing else.
#[test]
fn the_leader_is_control_a() {
    assert!(is_leader(key(KeyCode::Char('a'), CONTROL)));
    assert!(!is_leader(key(KeyCode::Char('a'), NONE)));
    assert!(!is_leader(key(KeyCode::Char('b'), CONTROL)));
}

/// The wheel speaks the cursor keys of the child's mode.
#[test]
fn wheel_arrows_follow_the_cursor_mode() {
    assert_eq!(wheel_arrow(true, false), b"\x1b[A".to_vec());
    assert_eq!(wheel_arrow(false, false), b"\x1b[B".to_vec());
    assert_eq!(wheel_arrow(true, true), b"\x1bOA".to_vec());
    assert_eq!(wheel_arrow(false, true), b"\x1bOB".to_vec());
}

/// Alt adds an escape, Shift adds nothing, and a Control key without a control
/// byte is sent plain.
#[test]
fn modifiers_add_up_on_characters() {
    for c in ['a', 'Z', '[', '1', 'é'] {
        for control in [false, true] {
            let plain = KeyModifiers { shift: false, alt: false, control };
            let mut escaped = vec![0x1b];
            escaped.extend(encode_char(c, plain));
            assert_eq!(encode_char(c, KeyModifiers { alt: true, ..plain }), escaped);
            let shifted = KeyModifiers { shift: true, ..plain };
            assert_eq!(encode_char(c, shifted), encode_char(c, plain));
        }
    }
    assert_eq!(encode_char('a', CONTROL), vec![1]);
    assert_eq!(encode_char('é', CONTROL), "é".as_bytes().to_vec());
}

/// A broader mode reports all that a narrower one does.
#[test]
fn broader_modes_keep_the_reports() {
    let modes = [
        MouseProtocolMode::Off,
        MouseProtocolMode::Press,
        MouseProtocolMode::PressRelease,
        MouseProtocolMode::ButtonMotion,
        MouseProtocolMode::AnyMotion,
    ];
    let kinds = [
        (MouseEventKind::Down(MouseButton::Right), 1, (2, false)),
        (MouseEventKind::Up(MouseButton::Middle), 2, (1, true)),
        (MouseEventKind::Drag(MouseButton::Left), 3, (32, false)),
        (MouseEventKind::Moved, 4, (35, false)),
        (MouseEventKind::ScrollUp, 1, (64, false)),
        (MouseEventKind::ScrollRight, 1, (67, false)),
    ];
    for (kind, from, report) in kinds {
        for (breadth, mode) in modes.into_iter().enumerate() {
            let expected = (breadth >= from).then_some(report);
            assert_eq!(mouse_button_code(kind, mode), expected);
        }
    }
}
