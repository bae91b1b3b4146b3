//! Key and pointer input, and the bytes that a terminal child expects for it.

use vstd::prelude::*;
use vstd::string::*;
use vstd::utf8::encode_utf8;
use crate::emulator::{MouseProtocolEncoding, MouseProtocolMode};
use crate::text::{decimal_bytes, push_decimal_bytes};

verus! {

/// `char::from_u32` gives the character with the given number, unless the
/// number is a surrogate or lies beyond the last character.
pub assume_specification[ char::from_u32 ](number: u32) -> (c: Option<char>)
    ensures
        vstd::utf8::is_scalar(number) ==> c == Some(number as char),
        !vstd::utf8::is_scalar(number) ==> c is None,
;

/// A key.
#[derive(Debug, Clone, Copy, PartialEq, Eq, Structural)]
pub enum KeyCode {
    /// Backspace.
    Backspace,
    /// Enter.
    Enter,
    /// Left arrow.
    Left,
    /// Right arrow.
    Right,
    /// Up arrow.
    Up,
    /// Down arrow.
    Down,
    /// Home.
    Home,
    /// End.
    End,
    /// Page up.
    PageUp,
    /// Page down.
    PageDown,
    /// Tab.
    Tab,
    /// Shift and tab.
    BackTab,
    /// Delete.
    Delete,
    /// Insert.
    Insert,
    /// A function key.
    F(u8),
    /// A character.
    Char(char),
    /// Escape.
    Esc,
    /// Any key that has no meaning here.
    Unmapped,
}

/// The modifiers held with a key or a pointer event.
#[derive(Debug, Clone, Copy, PartialEq, Eq, Structural)]
pub struct KeyModifiers {
    /// Shift.
    pub shift: bool,
    /// Alt.
    pub alt: bool,
    /// Control.
    pub control: bool,
}

impl KeyModifiers {
    /// No modifier.
    pub open spec fn unmodified() -> KeyModifiers {
        KeyModifiers { shift: false, alt: false, control: false }
    }

    /// Returns no modifier.
    pub fn none() -> (modifiers: KeyModifiers)
        ensures
            modifiers == KeyModifiers::unmodified(),
    {
        KeyModifiers { shift: false, alt: false, control: false }
    }
}

/// Whether a key went down, is held, or came up.
#[derive(Debug, Clone, Copy, PartialEq, Eq, Structural)]
pub enum KeyEventKind {
    /// It went down.
    Press,
    /// It is held.
    Repeat,
    /// It came up.
    Release,
}

/// A key event.
#[derive(Debug, Clone, Copy, PartialEq, Eq, Structural)]
pub struct KeyEvent {
    /// Key.
    pub code: KeyCode,
    /// Modifiers.
    pub modifiers: KeyModifiers,
    /// What happened to the key.
    pub kind: KeyEventKind,
}

impl KeyEvent {
    /// The press of `code` with `modifiers`.
    pub fn new(code: KeyCode, modifiers: KeyModifiers) -> (event: KeyEvent)
        ensures
            event == (KeyEvent { code, modifiers, kind: KeyEventKind::Press }),
    {
        KeyEvent { code, modifiers, kind: KeyEventKind::Press }
    }
}

/// A pointer button.
#[derive(Debug, Clone, Copy, PartialEq, Eq, Structural)]
pub enum MouseButton {
    /// Left.
    Left,
    /// Right.
    Right,
    /// Middle.
    Middle,
}

/// What the pointer did.
#[derive(Debug, Clone, Copy, PartialEq, Eq, Structural)]
pub enum MouseEventKind {
    /// A button went down.
    Down(MouseButton),
    /// A button came up.
    Up(MouseButton),
    /// The pointer moved with a button held.
    Drag(MouseButton),
    /// The pointer moved.
    Moved,
    /// The wheel turned down.
    ScrollDown,
    /// The wheel turned up.
    ScrollUp,
    /// The wheel turned left.
    ScrollLeft,
    /// The wheel turned right.
    ScrollRight,
}

/// A pointer event.
#[derive(Debug, Clone, Copy, PartialEq, Eq, Structural)]
pub struct MouseEvent {
    /// What happened.
    pub kind: MouseEventKind,
    /// Column.
    pub column: u16,
    /// Row.
    pub row: u16,
    /// Modifiers.
    pub modifiers: KeyModifiers,
}

/// Leader key (pressed with Control) that begins a command chord.
pub const LEADER_KEY: char = 'a';

/// Whether `key` is the leader chord.
pub open spec fn leads(key: KeyEvent) -> bool {
    key.modifiers.control && key.code == KeyCode::Char(LEADER_KEY)
}

/// Returns whether `key` is the leader chord (Control + the leader key).
pub fn is_leader(key: KeyEvent) -> (leader: bool)
    ensures
        leader == leads(key),
{
    key.modifiers.control && match key.code {
        KeyCode::Char(c) => c == LEADER_KEY,
        _ => false,
    }
}

/// Escape byte that introduces control sequences.
pub const ESC: u8 = 0x1b;

/// The largest coordinate representable by the legacy one-byte protocol.
pub const MAX_LEGACY_MOUSE_COORDINATE: u16 = 223;

/// The cursor-key sequence of one wheel notch.
pub open spec fn wheel_bytes(up: bool, application_cursor: bool) -> Seq<u8> {
    seq![
        ESC,
        if application_cursor {
            0x4fu8
        } else {
            0x5bu8
        },
        if up {
            0x41u8
        } else {
            0x42u8
        },
    ]
}

/// Returns the cursor-key sequence sent to an alternate-screen child per wheel
/// notch (xterm alternate scroll), honoring application cursor mode.
pub fn wheel_arrow(up: bool, application_cursor: bool) -> (bytes: Vec<u8>)
    ensures
        bytes@ == wheel_bytes(up, application_cursor),
{
    let bytes: Vec<u8> = vec![
        ESC,
        if application_cursor {
            0x4fu8
        } else {
            0x5bu8
        },
        if up {
            0x41u8
        } else {
            0x42u8
        },
    ];
    assert(bytes@ =~= wheel_bytes(up, application_cursor));
    bytes
}

/// The xterm modifier code: `1 + shift(1) + alt(2) + ctrl(4)`.
pub open spec fn modifier_number(modifiers: KeyModifiers) -> int {
    1 + (if modifiers.shift {
        1int
    } else {
        0
    }) + (if modifiers.alt {
        2int
    } else {
        0
    }) + (if modifiers.control {
        4int
    } else {
        0
    })
}

/// Returns the xterm modifier code.
pub fn modifier_code(modifiers: KeyModifiers) -> (code: u8)
    ensures
        code == modifier_number(modifiers),
        1 <= code <= 8,
{
    let mut code: u8 = 1;
    if modifiers.shift {
        code = code + 1;
    }
    if modifiers.alt {
        code = code + 2;
    }
    if modifiers.control {
        code = code + 4;
    }
    code
}

/// A sequence that ends in `last`: with modifiers it carries `1;<modifier>`.
pub open spec fn csi_final_bytes(last: u8, modifiers: KeyModifiers) -> Seq<u8> {
    let code = modifier_number(modifiers);
    (if code > 1 {
        seq![ESC, 0x5bu8, 0x31u8, 0x3bu8] + decimal_bytes(code as nat)
    } else {
        seq![ESC, 0x5bu8]
    }).push(last)
}

/// Returns a CSI sequence ending in `last`, with a `1;<modifier>` parameter
/// when modifiers are held (e.g. `ESC [ 1 ; 5 A` for Ctrl-Up).
pub fn csi_final(last: u8, modifiers: KeyModifiers) -> (bytes: Vec<u8>)
    ensures
        bytes@ == csi_final_bytes(last, modifiers),
{
    let code: u8 = modifier_code(modifiers);
    let mut bytes: Vec<u8> = Vec::new();
    bytes.push(ESC);
    bytes.push(0x5b);
    if code > 1 {
        bytes.push(0x31);
        bytes.push(0x3b);
        assert(bytes@ =~= seq![ESC, 0x5bu8, 0x31u8, 0x3bu8]);
        push_decimal_bytes(&mut bytes, code as u64);
    } else {
        assert(bytes@ =~= seq![ESC, 0x5bu8]);
    }
    bytes.push(last);
    bytes
}

/// A sequence `ESC [ number ~`: with modifiers it carries `;<modifier>`.
pub open spec fn csi_tilde_bytes(number: u8, modifiers: KeyModifiers) -> Seq<u8> {
    let code = modifier_number(modifiers);
    let head = seq![ESC, 0x5bu8] + decimal_bytes(number as nat);
    (if code > 1 {
        head.push(0x3bu8) + decimal_bytes(code as nat)
    } else {
        head
    }).push(0x7eu8)
}

/// Returns a tilde CSI sequence `ESC [ number ~`, with a `;<modifier>`
/// parameter when modifiers are held (e.g. `ESC [ 5 ; 5 ~` for Ctrl-PageUp).
pub fn csi_tilde(number: u8, modifiers: KeyModifiers) -> (bytes: Vec<u8>)
    ensures
        bytes@ == csi_tilde_bytes(number, modifiers),
{
    let code: u8 = modifier_code(modifiers);
    let mut bytes: Vec<u8> = Vec::new();
    bytes.push(ESC);
    bytes.push(0x5b);
    assert(bytes@ =~= seq![ESC, 0x5bu8]);
    push_decimal_bytes(&mut bytes, number as u64);
    if code > 1 {
        bytes.push(0x3b);
        push_decimal_bytes(&mut bytes, code as u64);
    }
    bytes.push(0x7e);
    bytes
}

/// The control byte for `Ctrl` + `c` across the ASCII control range.
pub open spec fn control_code(c: char) -> Option<u8> {
    let code = c as int;
    if c == ' ' || c == '@' {
        Some(0x00)
    } else if c == '?' {
        Some(0x7f)
    } else if 0x41 <= code <= 0x5f {
        Some((code - 0x40) as u8)
    } else if 0x61 <= code <= 0x7a {
        Some((code - 0x60) as u8)
    } else {
        None
    }
}

/// Returns the control byte for `Ctrl` + `c`, or `None` when the character has
/// no control mapping.
pub fn control_byte(c: char) -> (byte: Option<u8>)
    ensures
        byte == control_code(c),
{
    let code: u32 = c as u32;
    if c == ' ' || c == '@' {
        Some(0x00)
    } else if c == '?' {
        Some(0x7f)
    } else if 0x41 <= code && code <= 0x5f {
        Some((code - 0x40) as u8)
    } else if 0x61 <= code && code <= 0x7a {
        Some((code - 0x60) as u8)
    } else {
        None
    }
}

/// A control byte is what remains of an ASCII character when all but its five
/// lowest bits are cleared.
pub proof fn control_codes_fold_to_five_bits(code: u8)
    requires
        0x40 <= code <= 0x5f || 0x61 <= code <= 0x7a,
    ensures
        control_code(code as char) == Some(code & 0x1f),
{
    assert(0x40 <= code <= 0x5f ==> code & 0x1f == code - 0x40) by (bit_vector);
    assert(0x61 <= code <= 0x7a ==> code & 0x1f == code - 0x60) by (bit_vector);
}

/// The bytes of a character in UTF-8.
pub open spec fn utf8_of(c: char) -> Seq<u8> {
    encode_utf8(seq![c])
}

/// Returns the bytes of a character in UTF-8.
fn utf8_bytes(c: char) -> (bytes: Vec<u8>)
    ensures
        bytes@ == utf8_of(c),
{
    let mut text: String = String::new();
    text.push(c);
    assert(text@ =~= seq![c]);
    text.as_str().as_bytes_vec()
}

/// The bytes of a character key: Control folds it to a control byte where it
/// has one, Alt puts an escape before it.
pub open spec fn char_bytes(c: char, modifiers: KeyModifiers) -> Seq<u8> {
    let plain = if modifiers.control && control_code(c) is Some {
        seq![control_code(c)->0]
    } else {
        utf8_of(c)
    };
    if modifiers.alt {
        seq![ESC] + plain
    } else {
        plain
    }
}

/// Returns the bytes of a character key.
pub fn encode_char(c: char, modifiers: KeyModifiers) -> (bytes: Vec<u8>)
    ensures
        bytes@ == char_bytes(c, modifiers),
{
    let mut plain: Vec<u8> = if modifiers.control {
        match control_byte(c) {
            Some(byte) => {
                let one: Vec<u8> = vec![byte];
                assert(one@ =~= seq![byte]);
                one
            },
            None => utf8_bytes(c),
        }
    } else {
        utf8_bytes(c)
    };
    if modifiers.alt {
        let mut bytes: Vec<u8> = vec![ESC];
        assert(bytes@ =~= seq![ESC]);
        bytes.append(&mut plain);
        return bytes;
    }
    plain
}

/// The numeric parameter of the function keys from the fifth to the twelfth.
pub open spec fn function_param(n: u8) -> Option<u8> {
    if n == 5 {
        Some(15u8)
    } else if 6 <= n <= 10 {
        Some((n + 11) as u8)
    } else if n == 11 {
        Some(23u8)
    } else if n == 12 {
        Some(24u8)
    } else {
        None
    }
}

/// The bytes of a function key: SS3 for the first four without modifiers, the
/// modified CSI form with them, CSI-tilde up to the twelfth.
pub open spec fn function_key_bytes(n: u8, modifiers: KeyModifiers) -> Option<Seq<u8>> {
    if 1 <= n <= 4 {
        if modifier_number(modifiers) > 1 {
            Some(csi_final_bytes((0x4f + n) as u8, modifiers))
        } else {
            Some(seq![ESC, 0x4fu8, (0x4f + n) as u8])
        }
    } else {
        match function_param(n) {
            Some(param) => Some(csi_tilde_bytes(param, modifiers)),
            None => None,
        }
    }
}

/// Returns the bytes of a function key, or `None` for an unsupported number.
fn encode_function_key(n: u8, modifiers: KeyModifiers) -> (bytes: Option<Vec<u8>>)
    ensures
        match bytes {
            Some(bytes) => function_key_bytes(n, modifiers) == Some(bytes@),
            None => function_key_bytes(n, modifiers) is None,
        },
{
    if 1 <= n && n <= 4 {
        let last: u8 = 0x4f + n;
        if modifier_code(modifiers) > 1 {
            return Some(csi_final(last, modifiers));
        }
        let bytes: Vec<u8> = vec![ESC, 0x4fu8, last];
        assert(bytes@ =~= seq![ESC, 0x4fu8, last]);
        return Some(bytes);
    }
    if n == 5 {
        Some(csi_tilde(15, modifiers))
    } else if 6 <= n && n <= 10 {
        Some(csi_tilde(n + 11, modifiers))
    } else if n == 11 {
        Some(csi_tilde(23, modifiers))
    } else if n == 12 {
        Some(csi_tilde(24, modifiers))
    } else {
        None
    }
}

/// The bytes that a child expects for a key.
pub open spec fn key_bytes(key: KeyEvent) -> Option<Seq<u8>> {
    let modifiers = key.modifiers;
    match key.code {
        KeyCode::Char(c) => Some(char_bytes(c, modifiers)),
        KeyCode::Enter => Some(seq![0x0du8]),
        KeyCode::Backspace => Some(seq![0x7fu8]),
        KeyCode::Tab => Some(seq![0x09u8]),
        KeyCode::BackTab => Some(csi_final_bytes(0x5a, KeyModifiers::unmodified())),
        KeyCode::Esc => Some(seq![ESC]),
        KeyCode::Left => Some(csi_final_bytes(0x44, modifiers)),
        KeyCode::Right => Some(csi_final_bytes(0x43, modifiers)),
        KeyCode::Up => Some(csi_final_bytes(0x41, modifiers)),
        KeyCode::Down => Some(csi_final_bytes(0x42, modifiers)),
        KeyCode::Home => Some(csi_final_bytes(0x48, modifiers)),
        KeyCode::End => Some(csi_final_bytes(0x46, modifiers)),
        KeyCode::PageUp => Some(csi_tilde_bytes(5, modifiers)),
        KeyCode::PageDown => Some(csi_tilde_bytes(6, modifiers)),
        KeyCode::Insert => Some(csi_tilde_bytes(2, modifiers)),
        KeyCode::Delete => Some(csi_tilde_bytes(3, modifiers)),
        KeyCode::F(n) => function_key_bytes(n, modifiers),
        KeyCode::Unmapped => None,
    }
}

/// Returns a list of one byte.
fn single(byte: u8) -> (bytes: Vec<u8>)
    ensures
        bytes@ == seq![byte],
{
    let bytes: Vec<u8> = vec![byte];
    assert(bytes@ =~= seq![byte]);
    bytes
}

/// Encodes a key event into the byte sequence a terminal child expects, or
/// `None` when the key has no meaningful terminal encoding.
pub fn encode_key(key: KeyEvent) -> (bytes: Option<Vec<u8>>)
    ensures
        match bytes {
            Some(bytes) => key_bytes(key) == Some(bytes@),
            None => key_bytes(key) is None,
        },
{
    let modifiers: KeyModifiers = key.modifiers;
    match key.code {
        KeyCode::Char(c) => Some(encode_char(c, modifiers)),
        KeyCode::Enter => Some(single(0x0d)),
        KeyCode::Backspace => Some(single(0x7f)),
        KeyCode::Tab => Some(single(0x09)),
        KeyCode::BackTab => Some(csi_final(0x5a, KeyModifiers::none())),
        KeyCode::Esc => Some(single(ESC)),
        KeyCode::Left => Some(csi_final(0x44, modifiers)),
        KeyCode::Right => Some(csi_final(0x43, modifiers)),
        KeyCode::Up => Some(csi_final(0x41, modifiers)),
        KeyCode::Down => Some(csi_final(0x42, modifiers)),
        KeyCode::Home => Some(csi_final(0x48, modifiers)),
        KeyCode::End => Some(csi_final(0x46, modifiers)),
        KeyCode::PageUp => Some(csi_tilde(5, modifiers)),
        KeyCode::PageDown => Some(csi_tilde(6, modifiers)),
        KeyCode::Insert => Some(csi_tilde(2, modifiers)),
        KeyCode::Delete => Some(csi_tilde(3, modifiers)),
        KeyCode::F(n) => encode_function_key(n, modifiers),
        KeyCode::Unmapped => None,
    }
}

/// The xterm number of a physical button.
pub open spec fn button_number(button: MouseButton) -> u8 {
    match button {
        MouseButton::Left => 0,
        MouseButton::Middle => 1,
        MouseButton::Right => 2,
    }
}

/// Whether a mode receives button releases.
pub open spec fn wants_release(mode: MouseProtocolMode) -> bool {
    mode == MouseProtocolMode::PressRelease || mode == MouseProtocolMode::ButtonMotion || mode
        == MouseProtocolMode::AnyMotion
}

/// Whether a mode receives motion while a button is held.
pub open spec fn wants_motion(mode: MouseProtocolMode) -> bool {
    mode == MouseProtocolMode::ButtonMotion || mode == MouseProtocolMode::AnyMotion
}

/// The xterm button number of an event, and whether it is a release, when the
/// mode reports it.
pub open spec fn button_report(kind: MouseEventKind, mode: MouseProtocolMode) -> Option<(u8, bool)> {
    let on = mode != MouseProtocolMode::Off;
    match kind {
        MouseEventKind::Down(button) => if on {
            Some((button_number(button), false))
        } else {
            None
        },
        MouseEventKind::Up(button) => if wants_release(mode) {
            Some((button_number(button), true))
        } else {
            None
        },
        MouseEventKind::Drag(button) => if wants_motion(mode) {
            Some(((button_number(button) + 32) as u8, false))
        } else {
            None
        },
        MouseEventKind::Moved => if mode == MouseProtocolMode::AnyMotion {
            Some((35u8, false))
        } else {
            None
        },
        MouseEventKind::ScrollUp => if on {
            Some((64u8, false))
        } else {
            None
        },
        MouseEventKind::ScrollDown => if on {
            Some((65u8, false))
        } else {
            None
        },
        MouseEventKind::ScrollLeft => if on {
            Some((66u8, false))
        } else {
            None
        },
        MouseEventKind::ScrollRight => if on {
            Some((67u8, false))
        } else {
            None
        },
    }
}

/// Returns the xterm number of a physical button.
fn button_code(button: MouseButton) -> (code: u8)
    ensures
        code == button_number(button),
        code <= 2,
{
    match button {
        MouseButton::Left => 0,
        MouseButton::Middle => 1,
        MouseButton::Right => 2,
    }
}

/// Returns whether this xterm mode receives button releases.
fn reports_release(mode: MouseProtocolMode) -> (reports: bool)
    ensures
        reports == wants_release(mode),
{
    match mode {
        MouseProtocolMode::PressRelease | MouseProtocolMode::ButtonMotion
        | MouseProtocolMode::AnyMotion => true,
        MouseProtocolMode::Off | MouseProtocolMode::Press => false,
    }
}

/// Returns whether this xterm mode receives motion while a button is held.
fn reports_motion(mode: MouseProtocolMode) -> (reports: bool)
    ensures
        reports == wants_motion(mode),
{
    match mode {
        MouseProtocolMode::ButtonMotion | MouseProtocolMode::AnyMotion => true,
        MouseProtocolMode::Off | MouseProtocolMode::Press | MouseProtocolMode::PressRelease => false,
    }
}

/// Maps an event to its xterm button number when the active mode reports it.
pub fn mouse_button_code(kind: MouseEventKind, mode: MouseProtocolMode) -> (code: Option<(u8, bool)>)
    ensures
        code == button_report(kind, mode),
        code matches Some(report) ==> report.0 <= 67,
{
    let on: bool = mode != MouseProtocolMode::Off;
    match kind {
        MouseEventKind::Down(button) => if on {
            Some((button_code(button), false))
        } else {
            None
        },
        MouseEventKind::Up(button) => if reports_release(mode) {
            Some((button_code(button), true))
        } else {
            None
        },
        MouseEventKind::Drag(button) => if reports_motion(mode) {
            Some((button_code(button) + 32, false))
        } else {
            None
        },
        MouseEventKind::Moved => if mode == MouseProtocolMode::AnyMotion {
            Some((35, false))
        } else {
            None
        },
        MouseEventKind::ScrollUp => if on {
            Some((64, false))
        } else {
            None
        },
        MouseEventKind::ScrollDown => if on {
            Some((65, false))
        } else {
            None
        },
        MouseEventKind::ScrollLeft => if on {
            Some((66, false))
        } else {
            None
        },
        MouseEventKind::ScrollRight => if on {
            Some((67, false))
        } else {
            None
        },
    }
}

/// The modifier bits of a mouse report.
pub open spec fn mouse_modifiers(modifiers: KeyModifiers) -> int {
    (if modifiers.shift {
        4int
    } else {
        0
    }) + (if modifiers.alt {
        8int
    } else {
        0
    }) + (if modifiers.control {
        16int
    } else {
        0
    })
}

/// Converts modifiers into xterm mouse button-code bits.
fn mouse_modifier_bits(modifiers: KeyModifiers) -> (bits: u8)
    ensures
        bits == mouse_modifiers(modifiers),
        bits <= 28,
{
    let mut bits: u8 = 0;
    if modifiers.shift {
        bits = bits + 4;
    }
    if modifiers.alt {
        bits = bits + 8;
    }
    if modifiers.control {
        bits = bits + 16;
    }
    bits
}

/// The number that a report carries for a button: SGR keeps the button of a
/// release, the other encodings share one number for all releases.
pub open spec fn reported_button(button: u8, release: bool, encoding: MouseProtocolEncoding) -> u8 {
    if release && encoding != MouseProtocolEncoding::Sgr {
        3
    } else {
        button
    }
}

/// An SGR mouse report, which has no coordinate-size limitation.
pub open spec fn sgr_report(button: u8, column: u16, row: u16, release: bool) -> Seq<u8> {
    (seq![ESC, 0x5bu8, 0x3cu8] + decimal_bytes(button as nat)).push(0x3bu8) + decimal_bytes(
        column as nat,
    ).push(0x3bu8) + decimal_bytes(row as nat).push(
        if release {
            0x6du8
        } else {
            0x4du8
        },
    )
}

/// Builds an SGR mouse report.
pub fn sgr_mouse_report(button: u8, column: u16, row: u16, release: bool) -> (bytes: Vec<u8>)
    ensures
        bytes@ == sgr_report(button, column, row, release),
{
    let mut bytes: Vec<u8> = vec![ESC, 0x5bu8, 0x3cu8];
    assert(bytes@ =~= seq![ESC, 0x5bu8, 0x3cu8]);
    push_decimal_bytes(&mut bytes, button as u64);
    bytes.push(0x3b);
    push_decimal_bytes(&mut bytes, column as u64);
    bytes.push(0x3b);
    push_decimal_bytes(&mut bytes, row as u64);
    bytes.push(
        if release {
            0x6du8
        } else {
            0x4du8
        },
    );
    assert(bytes@ =~= sgr_report(button, column, row, release));
    bytes
}

/// A legacy xterm mouse report, unless a coordinate lies outside its range.
pub open spec fn legacy_report(button: u8, column: u16, row: u16) -> Option<Seq<u8>> {
    if column > MAX_LEGACY_MOUSE_COORDINATE || row > MAX_LEGACY_MOUSE_COORDINATE {
        None
    } else {
        Some(
            seq![
                ESC,
                0x5bu8,
                0x4du8,
                if button + 32 <= 255 {
                    (button + 32) as u8
                } else {
                    255
                },
                (column + 32) as u8,
                (row + 32) as u8,
            ],
        )
    }
}

/// Builds a legacy xterm mouse report, returning `None` outside its byte range.
pub fn legacy_mouse_report(button: u8, column: u16, row: u16) -> (bytes: Option<Vec<u8>>)
    ensures
        match bytes {
            Some(bytes) => legacy_report(button, column, row) == Some(bytes@),
            None => legacy_report(button, column, row) is None,
        },
{
    if column > MAX_LEGACY_MOUSE_COORDINATE || row > MAX_LEGACY_MOUSE_COORDINATE {
        return None;
    }
    let bytes: Vec<u8> = vec![
        ESC,
        0x5bu8,
        0x4du8,
        button.saturating_add(32),
        (column + 32) as u8,
        (row + 32) as u8,
    ];
    assert(bytes@ =~= legacy_report(button, column, row)->0);
    Some(bytes)
}

/// The UTF-8 bytes of the character with the given number, if there is one.
pub open spec fn utf8_number(number: u32) -> Option<Seq<u8>> {
    if vstd::utf8::is_scalar(number) {
        Some(utf8_of(number as char))
    } else {
        None
    }
}

/// The UTF-8 extension of the legacy xterm mouse report.
pub open spec fn utf8_report(button: u8, column: u16, row: u16) -> Option<Seq<u8>> {
    let b = utf8_number((button + 32) as u32);
    let c = utf8_number((column + 32) as u32);
    let r = utf8_number((row + 32) as u32);
    if b is Some && c is Some && r is Some {
        Some(seq![ESC, 0x5bu8, 0x4du8] + b->0 + c->0 + r->0)
    } else {
        None
    }
}

/// Builds the UTF-8 extension of the legacy xterm mouse report. Where a
/// coordinate falls on a number that is no character there is no report.
pub fn utf8_mouse_report(button: u8, column: u16, row: u16) -> (bytes: Option<Vec<u8>>)
    ensures
        match bytes {
            Some(bytes) => utf8_report(button, column, row) == Some(bytes@),
            None => utf8_report(button, column, row) is None,
        },
{
    let mut bytes: Vec<u8> = vec![ESC, 0x5bu8, 0x4du8];
    assert(bytes@ =~= seq![ESC, 0x5bu8, 0x4du8]);
    match char::from_u32(button as u32 + 32) {
        Some(c) => bytes.append(&mut utf8_bytes(c)),
        None => return None,
    }
    match char::from_u32(column as u32 + 32) {
        Some(c) => bytes.append(&mut utf8_bytes(c)),
        None => return None,
    }
    match char::from_u32(row as u32 + 32) {
        Some(c) => bytes.append(&mut utf8_bytes(c)),
        None => return None,
    }
    Some(bytes)
}

/// One more than a zero-based coordinate, or the largest number.
pub open spec fn one_based(coordinate: u16) -> u16 {
    if coordinate < u16::MAX {
        (coordinate + 1) as u16
    } else {
        u16::MAX
    }
}

/// The report of a pointer event at a zero-based terminal coordinate, when the
/// mode asks for it and the encoding can carry it.
pub open spec fn mouse_bytes(
    mouse: MouseEvent,
    column: u16,
    row: u16,
    mode: MouseProtocolMode,
    encoding: MouseProtocolEncoding,
) -> Option<Seq<u8>> {
    match button_report(mouse.kind, mode) {
        Some(report) => {
            let release = report.1;
            let button = (reported_button(report.0, release, encoding) + mouse_modifiers(
                mouse.modifiers,
            )) as u8;
            match encoding {
                MouseProtocolEncoding::Sgr => Some(
                    sgr_report(button, one_based(column), one_based(row), release),
                ),
                MouseProtocolEncoding::Default => legacy_report(
                    button,
                    one_based(column),
                    one_based(row),
                ),
                MouseProtocolEncoding::Utf8 => utf8_report(
                    button,
                    one_based(column),
                    one_based(row),
                ),
            }
        },
        None => None,
    }
}

/// Encodes a pointer event for a child that opted into xterm mouse reporting.
/// `column` and `row` are zero-based terminal coordinates.
pub fn encode_mouse(
    mouse: MouseEvent,
    column: u16,
    row: u16,
    mode: MouseProtocolMode,
    encoding: MouseProtocolEncoding,
) -> (bytes: Option<Vec<u8>>)
    ensures
        match bytes {
            Some(bytes) => mouse_bytes(mouse, column, row, mode, encoding) == Some(bytes@),
            None => mouse_bytes(mouse, column, row, mode, encoding) is None,
        },
{
    match mouse_button_code(mouse.kind, mode) {
        Some((code, release)) => {
            let base: u8 = if release && encoding != MouseProtocolEncoding::Sgr {
                3
            } else {
                code
            };
            let button: u8 = base + mouse_modifier_bits(mouse.modifiers);
            let column: u16 = column.saturating_add(1);
            let row: u16 = row.saturating_add(1);
            match encoding {
                MouseProtocolEncoding::Sgr => Some(sgr_mouse_report(button, column, row, release)),
                MouseProtocolEncoding::Default => legacy_mouse_report(button, column, row),
                MouseProtocolEncoding::Utf8 => utf8_mouse_report(button, column, row),
            }
        },
        None => None,
    }
}

/// Decimal digits are never a separator.
proof fn digits_are_no_separator(number: nat, i: int)
    requires
        0 <= i < decimal_bytes(number).len(),
    ensures
        0x30 <= decimal_bytes(number)[i] <= 0x39,
    decreases number,
{
    if number >= 10 {
        if i < decimal_bytes(number / 10).len() {
            digits_are_no_separator(number / 10, i);
        }
    }
}

/// Decimal digits are never empty and end in the digit of the remainder.
proof fn decimal_bytes_shape(number: nat)
    ensures
        decimal_bytes(number).len() >= 1,
        number >= 10 ==> decimal_bytes(number).len() >= 2,
        number < 10 ==> decimal_bytes(number).len() == 1,
        decimal_bytes(number).last() == (0x30 + number % 10) as u8,
    decreases number,
{
    if number >= 10 {
        decimal_bytes_shape(number / 10);
    }
}

/// Different numbers have different decimal digits.
proof fn decimal_bytes_injective(a: nat, b: nat)
    requires
        decimal_bytes(a) == decimal_bytes(b),
    ensures
        a == b,
    decreases a,
{
    decimal_bytes_shape(a);
    decimal_bytes_shape(b);
    assert(a % 10 == b % 10);
    if a >= 10 && b >= 10 {
        assert(decimal_bytes(a).drop_last() =~= decimal_bytes(a / 10));
        assert(decimal_bytes(b).drop_last() =~= decimal_bytes(b / 10));
        decimal_bytes_injective(a / 10, b / 10);
    }
}

/// Two texts of digits followed by the same kind of end split alike.
proof fn fields_split_alike(a: nat, b: nat, x: Seq<u8>, y: Seq<u8>)
    requires
        x.len() > 0,
        y.len() > 0,
        !(0x30 <= x[0] <= 0x39),
        !(0x30 <= y[0] <= 0x39),
        decimal_bytes(a) + x == decimal_bytes(b) + y,
    ensures
        a == b,
        x == y,
{
    let da = decimal_bytes(a);
    let db = decimal_bytes(b);
    let whole = da + x;
    assert(whole == db + y);
    if da.len() < db.len() {
        digits_are_no_separator(b, da.len() as int);
        assert(whole[da.len() as int] == x[0]);
        assert((db + y)[da.len() as int] == db[da.len() as int]);
    } else if db.len() < da.len() {
        digits_are_no_separator(a, db.len() as int);
        assert(whole[db.len() as int] == da[db.len() as int]);
        assert((db + y)[db.len() as int] == y[0]);
    }
    assert(da =~= whole.take(da.len() as int));
    assert(db =~= (db + y).take(db.len() as int));
    assert(x =~= whole.skip(da.len() as int));
    assert(y =~= (db + y).skip(db.len() as int));
    decimal_bytes_injective(a, b);
}

/// A field of digits and its separator split off alike.
proof fn field_splits_alike(a: nat, b: nat, x: Seq<u8>, y: Seq<u8>)
    requires
        decimal_bytes(a) + (seq![0x3bu8] + x) == decimal_bytes(b) + (seq![0x3bu8] + y),
    ensures
        a == b,
        x == y,
{
    fields_split_alike(a, b, seq![0x3bu8] + x, seq![0x3bu8] + y);
    assert(x =~= (seq![0x3bu8] + x).skip(1));
    assert(y =~= (seq![0x3bu8] + y).skip(1));
}

/// The byte that ends an SGR report.
spec fn sgr_end(release: bool) -> u8 {
    if release {
        0x6du8
    } else {
        0x4du8
    }
}

/// What an SGR report holds behind its button.
spec fn sgr_place(column: u16, row: u16, release: bool) -> Seq<u8> {
    decimal_bytes(column as nat) + (seq![0x3bu8] + (decimal_bytes(row as nat) + seq![
        sgr_end(release),
    ]))
}

/// An SGR report is its head, the button and the place.
proof fn sgr_shape(button: u8, column: u16, row: u16, release: bool)
    ensures
        sgr_report(button, column, row, release).skip(3) == decimal_bytes(button as nat) + (
        seq![0x3bu8] + sgr_place(column, row, release)),
{
    let b = decimal_bytes(button as nat);
    let c = decimal_bytes(column as nat);
    let r = decimal_bytes(row as nat);
    let report = sgr_report(button, column, row, release);
    let head = seq![ESC, 0x5bu8, 0x3cu8];
    assert(report == (head + b).push(0x3bu8) + c.push(0x3bu8) + r.push(sgr_end(release)));
    sequence_shape(b, c, r, sgr_end(release));
}

/// Regrouping of the pieces of an SGR report.
proof fn sequence_shape(b: Seq<u8>, c: Seq<u8>, r: Seq<u8>, end: u8)
    ensures
        ((seq![ESC, 0x5bu8, 0x3cu8] + b).push(0x3bu8) + c.push(0x3bu8) + r.push(end)).skip(3) == b
            + (seq![0x3bu8] + (c + (seq![0x3bu8] + (r + seq![end])))),
{
    assert(((seq![ESC, 0x5bu8, 0x3cu8] + b).push(0x3bu8) + c.push(0x3bu8) + r.push(end)).skip(3)
        =~= b + (seq![0x3bu8] + (c + (seq![0x3bu8] + (r + seq![end])))));
}

/// An SGR report says everything about its event: no two different buttons,
/// positions or kinds of event share a report.
pub proof fn sgr_reports_are_unambiguous(
    button_a: u8,
    column_a: u16,
    row_a: u16,
    release_a: bool,
    button_b: u8,
    column_b: u16,
    row_b: u16,
    release_b: bool,
)
    requires
        sgr_report(button_a, column_a, row_a, release_a) == sgr_report(
            button_b,
            column_b,
            row_b,
            release_b,
        ),
    ensures
        button_a == button_b,
        column_a == column_b,
        row_a == row_b,
        release_a == release_b,
{
    sgr_shape(button_a, column_a, row_a, release_a);
    sgr_shape(button_b, column_b, row_b, release_b);
    field_splits_alike(
        button_a as nat,
        button_b as nat,
        sgr_place(column_a, row_a, release_a),
        sgr_place(column_b, row_b, release_b),
    );
    let rows_a = decimal_bytes(row_a as nat) + seq![sgr_end(release_a)];
    let rows_b = decimal_bytes(row_b as nat) + seq![sgr_end(release_b)];
    field_splits_alike(column_a as nat, column_b as nat, rows_a, rows_b);
    fields_split_alike(
        row_a as nat,
        row_b as nat,
        seq![sgr_end(release_a)],
        seq![sgr_end(release_b)],
    );
    assert(seq![sgr_end(release_a)][0] == seq![sgr_end(release_b)][0]);
}

/// A child that asked for no mouse reports gets none, and motion is reported
/// only in the modes that ask for it.
pub proof fn only_requested_reports_are_sent(
    mouse: MouseEvent,
    column: u16,
    row: u16,
    encoding: MouseProtocolEncoding,
    button: MouseButton,
)
    ensures
        mouse_bytes(mouse, column, row, MouseProtocolMode::Off, encoding) is None,
        mouse.kind == MouseEventKind::Drag(button) ==> mouse_bytes(
            mouse,
            column,
            row,
            MouseProtocolMode::PressRelease,
            encoding,
        ) is None,
        mouse.kind == MouseEventKind::Moved ==> mouse_bytes(
            mouse,
            column,
            row,
            MouseProtocolMode::ButtonMotion,
            encoding,
        ) is None,
{
}

/// A legacy report never wraps a coordinate: it is sent only where each
/// coordinate still fits its byte.
pub proof fn legacy_reports_never_wrap(button: u8, column: u16, row: u16)
    ensures
        legacy_report(button, column, row) is Some <==> column + 32 <= 255 && row + 32 <= 255,
        legacy_report(button, column, row) matches Some(bytes) ==> bytes[4] == column + 32
            && bytes[5] == row + 32,
{
}

/// Alt puts an escape before what the same character sends without it, and Shift
/// makes no difference. Control sends the control byte of a character, or the
/// plain character where it has none: no key is dropped.
pub proof fn alt_escapes_and_shift_is_silent(c: char, modifiers: KeyModifiers)
    ensures
        char_bytes(c, (KeyModifiers { alt: true, ..modifiers })) == seq![ESC] + char_bytes(
            c,
            (KeyModifiers { alt: false, ..modifiers }),
        ),
        char_bytes(c, (KeyModifiers { shift: true, ..modifiers })) == char_bytes(
            c,
            (KeyModifiers { shift: false, ..modifiers }),
        ),
        !modifiers.alt && modifiers.control ==> match control_code(c) {
            Some(byte) => char_bytes(c, modifiers) == seq![byte],
            None => char_bytes(c, modifiers) == utf8_of(c),
        },
        !modifiers.alt && !modifiers.control ==> char_bytes(c, modifiers) == utf8_of(c),
{
}

/// How much a mode reports, from nothing to all motion.
pub open spec fn breadth(mode: MouseProtocolMode) -> int {
    match mode {
        MouseProtocolMode::Off => 0,
        MouseProtocolMode::Press => 1,
        MouseProtocolMode::PressRelease => 2,
        MouseProtocolMode::ButtonMotion => 3,
        MouseProtocolMode::AnyMotion => 4,
    }
}

/// How broad a mode must be to report an event.
pub open spec fn breadth_needed(kind: MouseEventKind) -> int {
    match kind {
        MouseEventKind::Up(_) => 2,
        MouseEventKind::Drag(_) => 3,
        MouseEventKind::Moved => 4,
        _ => 1,
    }
}

/// A broader mode reports all that a narrower one does, in the same words: each
/// kind of event has a breadth from which on it is reported. Only a button that
/// comes up is a release.
pub proof fn broader_modes_report_no_less(
    mouse: MouseEvent,
    column: u16,
    row: u16,
    narrow: MouseProtocolMode,
    broad: MouseProtocolMode,
    encoding: MouseProtocolEncoding,
)
    ensures
        button_report(mouse.kind, narrow) is Some <==> breadth_needed(mouse.kind) <= breadth(narrow),
        button_report(mouse.kind, narrow) matches Some(report) ==> (report.1 <==> mouse.kind is Up),
        breadth(narrow) <= breadth(broad) && button_report(mouse.kind, narrow) is Some
            ==> button_report(mouse.kind, broad) == button_report(mouse.kind, narrow),
        breadth(narrow) <= breadth(broad) && mouse_bytes(mouse, column, row, narrow, encoding) is Some
            ==> mouse_bytes(mouse, column, row, broad, encoding) == mouse_bytes(
            mouse,
            column,
            row,
            narrow,
            encoding,
        ),
{
}

} // verus!
