//! The bytes that keys, the wheel and the mouse are sent as.

use vstd::prelude::*;
use vstd::utf8::encode_utf8;
use crate::emulator::{MouseProtocolEncoding, MouseProtocolMode};
use crate::input::{
    key_bytes, leads, mouse_bytes, utf8_of, wheel_bytes, KeyCode, KeyEvent, KeyModifiers,
    MouseButton, MouseEvent, MouseEventKind,
};
use crate::text::decimal_bytes;

verus! {

/// Whether no modifier is held.
pub open spec fn plain(modifiers: KeyModifiers) -> bool {
    !modifiers.shift && !modifiers.alt && !modifiers.control
}

/// The digit that names a set of modifiers: `2` for shift, `3` for alt, `5` for
/// control, and so on to `8` for all three.
pub open spec fn modifier_digit(modifiers: KeyModifiers) -> u8 {
    match (modifiers.control, modifiers.alt, modifiers.shift) {
        (false, false, false) => 0x31,
        (false, false, true) => 0x32,
        (false, true, false) => 0x33,
        (false, true, true) => 0x34,
        (true, false, false) => 0x35,
        (true, false, true) => 0x36,
        (true, true, false) => 0x37,
        (true, true, true) => 0x38,
    }
}

/// Whether a key is sent as `ESC [` and a letter, with the digit of its modifiers
/// after `1;` where any is held.
pub open spec fn sent_with_letter(key: KeyEvent, letter: u8) -> bool {
    key_bytes(key) == Some(
        if plain(key.modifiers) {
            seq![0x1bu8, 0x5bu8, letter]
        } else {
            seq![0x1bu8, 0x5bu8, 0x31u8, 0x3bu8, modifier_digit(key.modifiers), letter]
        },
    )
}

/// The cursor keys are sent as xterm sends them: up `ESC [ A`, down `ESC [ B`,
/// right `ESC [ C`, left `ESC [ D`, end `ESC [ F`, home `ESC [ H`; with modifiers
/// `ESC [ 1 ; m` and the same letter.
pub proof fn cursor_keys_follow_xterm(key: KeyEvent)
    ensures
        key.code == KeyCode::Up ==> sent_with_letter(key, 0x41),
        key.code == KeyCode::Down ==> sent_with_letter(key, 0x42),
        key.code == KeyCode::Right ==> sent_with_letter(key, 0x43),
        key.code == KeyCode::Left ==> sent_with_letter(key, 0x44),
        key.code == KeyCode::End ==> sent_with_letter(key, 0x46),
        key.code == KeyCode::Home ==> sent_with_letter(key, 0x48),
{
    let digit = modifier_digit(key.modifiers);
    assert forall|last: u8|
        #![trigger crate::input::csi_final_bytes(last, key.modifiers)]
        crate::input::csi_final_bytes(last, key.modifiers) == if plain(key.modifiers) {
            seq![0x1bu8, 0x5bu8, last]
        } else {
            seq![0x1bu8, 0x5bu8, 0x31u8, 0x3bu8, digit, last]
        } by {
        let bytes = crate::input::csi_final_bytes(last, key.modifiers);
        if plain(key.modifiers) {
            assert(bytes =~= seq![0x1bu8, 0x5bu8, last]);
        } else {
            assert(bytes =~= seq![0x1bu8, 0x5bu8, 0x31u8, 0x3bu8, digit, last]);
        }
    }
}

/// Whether a key is sent as `ESC [`, one digit and `~`, with the digit of its
/// modifiers after a `;` where any is held.
pub open spec fn sent_with_digit(key: KeyEvent, digit: u8) -> bool {
    key_bytes(key) == Some(
        if plain(key.modifiers) {
            seq![0x1bu8, 0x5bu8, digit, 0x7eu8]
        } else {
            seq![0x1bu8, 0x5bu8, digit, 0x3bu8, modifier_digit(key.modifiers), 0x7eu8]
        },
    )
}

/// Whether a key is sent as `ESC [`, two digits and `~`, with the digit of its
/// modifiers after a `;` where any is held.
pub open spec fn sent_with_digits(key: KeyEvent, tens: u8, ones: u8) -> bool {
    key_bytes(key) == Some(
        if plain(key.modifiers) {
            seq![0x1bu8, 0x5bu8, tens, ones, 0x7eu8]
        } else {
            seq![0x1bu8, 0x5bu8, tens, ones, 0x3bu8, modifier_digit(key.modifiers), 0x7eu8]
        },
    )
}

proof fn tilde_sequences(number: u8, modifiers: KeyModifiers)
    requires
        number < 100,
    ensures
        ({
            let digit = modifier_digit(modifiers);
            let tens = (0x30 + number / 10) as u8;
            let ones = (0x30 + number % 10) as u8;
            let bytes = crate::input::csi_tilde_bytes(number, modifiers);
            &&& number < 10 && plain(modifiers) ==> bytes == seq![0x1bu8, 0x5bu8, ones, 0x7eu8]
            &&& number < 10 && !plain(modifiers) ==> bytes == seq![
                0x1bu8,
                0x5bu8,
                ones,
                0x3bu8,
                digit,
                0x7eu8,
            ]
            &&& number >= 10 && plain(modifiers) ==> bytes == seq![
                0x1bu8,
                0x5bu8,
                tens,
                ones,
                0x7eu8,
            ]
            &&& number >= 10 && !plain(modifiers) ==> bytes == seq![
                0x1bu8,
                0x5bu8,
                tens,
                ones,
                0x3bu8,
                digit,
                0x7eu8,
            ]
        }),
{
    reveal_with_fuel(decimal_bytes, 3);
    let digit = modifier_digit(modifiers);
    let tens = (0x30 + number / 10) as u8;
    let ones = (0x30 + number % 10) as u8;
    let bytes = crate::input::csi_tilde_bytes(number, modifiers);
    if number < 10 {
        assert(decimal_bytes(number as nat) =~= seq![ones]);
        if plain(modifiers) {
            assert(bytes =~= seq![0x1bu8, 0x5bu8, ones, 0x7eu8]);
        } else {
            assert(bytes =~= seq![0x1bu8, 0x5bu8, ones, 0x3bu8, digit, 0x7eu8]);
        }
    } else {
        assert(decimal_bytes(number as nat) =~= seq![tens, ones]);
        if plain(modifiers) {
            assert(bytes =~= seq![0x1bu8, 0x5bu8, tens, ones, 0x7eu8]);
        } else {
            assert(bytes =~= seq![0x1bu8, 0x5bu8, tens, ones, 0x3bu8, digit, 0x7eu8]);
        }
    }
}

/// The editing keys are sent as xterm sends them: insert `ESC [ 2 ~`, delete
/// `ESC [ 3 ~`, page up `ESC [ 5 ~`, page down `ESC [ 6 ~`; enter, tab, escape and
/// backspace as their control characters, whatever the modifiers; and the back
/// tab as `ESC [ Z`.
pub proof fn editing_keys_follow_xterm(key: KeyEvent)
    ensures
        key.code == KeyCode::Insert ==> sent_with_digit(key, 0x32),
        key.code == KeyCode::Delete ==> sent_with_digit(key, 0x33),
        key.code == KeyCode::PageUp ==> sent_with_digit(key, 0x35),
        key.code == KeyCode::PageDown ==> sent_with_digit(key, 0x36),
        key.code == KeyCode::Enter ==> key_bytes(key) == Some(seq![0x0du8]),
        key.code == KeyCode::Tab ==> key_bytes(key) == Some(seq![0x09u8]),
        key.code == KeyCode::Esc ==> key_bytes(key) == Some(seq![0x1bu8]),
        key.code == KeyCode::Backspace ==> key_bytes(key) == Some(seq![0x7fu8]),
        key.code == KeyCode::BackTab ==> key_bytes(key) == Some(seq![0x1bu8, 0x5bu8, 0x5au8]),
        key.code == KeyCode::Unmapped ==> key_bytes(key) is None,
{
    tilde_sequences(2, key.modifiers);
    tilde_sequences(3, key.modifiers);
    tilde_sequences(5, key.modifiers);
    tilde_sequences(6, key.modifiers);
    assert(crate::input::csi_final_bytes(0x5a, KeyModifiers::unmodified()) =~= seq![
        0x1bu8,
        0x5bu8,
        0x5au8,
    ]);
}

/// The function keys are sent as xterm sends them: F1 to F4 as `ESC O` and `P` to
/// `S`, or with modifiers as `ESC [ 1 ; m` and that letter; F5 to F12 as `ESC [`,
/// one of 15, 17, 18, 19, 20, 21, 23, 24, and `~`. There are no others.
pub proof fn function_keys_follow_xterm(key: KeyEvent, n: u8)
    requires
        key.code == KeyCode::F(n),
    ensures
        1 <= n <= 4 && plain(key.modifiers) ==> key_bytes(key) == Some(
            seq![0x1bu8, 0x4fu8, (0x4f + n) as u8],
        ),
        1 <= n <= 4 && !plain(key.modifiers) ==> sent_with_letter(key, (0x4f + n) as u8),
        n == 5 ==> sent_with_digits(key, 0x31, 0x35),
        n == 6 ==> sent_with_digits(key, 0x31, 0x37),
        n == 7 ==> sent_with_digits(key, 0x31, 0x38),
        n == 8 ==> sent_with_digits(key, 0x31, 0x39),
        n == 9 ==> sent_with_digits(key, 0x32, 0x30),
        n == 10 ==> sent_with_digits(key, 0x32, 0x31),
        n == 11 ==> sent_with_digits(key, 0x32, 0x33),
        n == 12 ==> sent_with_digits(key, 0x32, 0x34),
        n == 0 || n > 12 ==> key_bytes(key) is None,
{
    tilde_sequences(15, key.modifiers);
    tilde_sequences(17, key.modifiers);
    tilde_sequences(18, key.modifiers);
    tilde_sequences(19, key.modifiers);
    tilde_sequences(20, key.modifiers);
    tilde_sequences(21, key.modifiers);
    tilde_sequences(23, key.modifiers);
    tilde_sequences(24, key.modifiers);
    if 1 <= n <= 4 && !plain(key.modifiers) {
        let letter = (0x4f + n) as u8;
        assert(crate::input::csi_final_bytes(letter, key.modifiers) =~= seq![
            0x1bu8,
            0x5bu8,
            0x31u8,
            0x3bu8,
            modifier_digit(key.modifiers),
            letter,
        ]);
    }
}

/// A character is sent as its UTF-8 bytes, with an escape before them where alt is
/// held. With control, a letter is sent as its place in the alphabet, whatever its
/// case, and so are the characters around the letters: `@` and the blank as
/// 0, `[ \ ] ^ _` as 27 to 31, and `?` as 127; other characters are not changed.
pub proof fn characters_are_sent_as_typed(key: KeyEvent, c: char)
    requires
        key.code == KeyCode::Char(c),
    ensures
        ({
            let code = c as int;
            let head: Seq<u8> = if key.modifiers.alt {
                seq![0x1bu8]
            } else {
                seq![]
            };
            let held = key.modifiers.control;
            let folded = code == 0x20 || code == 0x3f || 0x40 <= code <= 0x5f || 0x61 <= code
                <= 0x7a;
            &&& !held || !folded ==> key_bytes(key) == Some(head + encode_utf8(seq![c]))
            &&& held && 0x61 <= code <= 0x7a ==> key_bytes(key) == Some(
                head + seq![(code - 0x60) as u8],
            )
            &&& held && 0x41 <= code <= 0x5f ==> key_bytes(key) == Some(
                head + seq![(code - 0x40) as u8],
            )
            &&& held && (code == 0x20 || code == 0x40) ==> key_bytes(key) == Some(
                head + seq![0x00u8],
            )
            &&& held && code == 0x3f ==> key_bytes(key) == Some(head + seq![0x7fu8])
        }),
{
    let head: Seq<u8> = seq![];
    assert forall|bytes: Seq<u8>| #[trigger] (head + bytes) == bytes by {
        assert(head + bytes =~= bytes);
    }
}

/// The leader is control and `a`, and nothing else.
pub proof fn the_leader_is_control_a(key: KeyEvent)
    ensures
        leads(key) <==> key.modifiers.control && key.code == KeyCode::Char('a'),
{
}

/// The wheel scrolls a full-screen program with its cursor keys: up as `A` and
/// down as `B`, after `ESC O` where the program asked for application keys and
/// after `ESC [` otherwise.
pub proof fn the_wheel_sends_cursor_keys()
    ensures
        wheel_bytes(true, false) == seq![0x1bu8, 0x5bu8, 0x41u8],
        wheel_bytes(false, false) == seq![0x1bu8, 0x5bu8, 0x42u8],
        wheel_bytes(true, true) == seq![0x1bu8, 0x4fu8, 0x41u8],
        wheel_bytes(false, true) == seq![0x1bu8, 0x4fu8, 0x42u8],
{
}

/// The number of a mouse event before modifiers: the buttons are 0, 1 and 2 from
/// left to right, a drag adds 32 to them, a bare motion is 35, and the wheel is
/// 64 up, 65 down, 66 left and 67 right.
pub open spec fn event_number(kind: MouseEventKind) -> int {
    match kind {
        MouseEventKind::Down(MouseButton::Left) => 0,
        MouseEventKind::Down(MouseButton::Middle) => 1,
        MouseEventKind::Down(MouseButton::Right) => 2,
        MouseEventKind::Up(MouseButton::Left) => 0,
        MouseEventKind::Up(MouseButton::Middle) => 1,
        MouseEventKind::Up(MouseButton::Right) => 2,
        MouseEventKind::Drag(MouseButton::Left) => 32,
        MouseEventKind::Drag(MouseButton::Middle) => 33,
        MouseEventKind::Drag(MouseButton::Right) => 34,
        MouseEventKind::Moved => 35,
        MouseEventKind::ScrollUp => 64,
        MouseEventKind::ScrollDown => 65,
        MouseEventKind::ScrollLeft => 66,
        MouseEventKind::ScrollRight => 67,
    }
}

/// What the modifiers add to the number of a mouse event: shift 4, alt 8 and
/// control 16.
pub open spec fn modifier_weight(modifiers: KeyModifiers) -> int {
    match (modifiers.control, modifiers.alt, modifiers.shift) {
        (false, false, false) => 0,
        (false, false, true) => 4,
        (false, true, false) => 8,
        (false, true, true) => 12,
        (true, false, false) => 16,
        (true, false, true) => 20,
        (true, true, false) => 24,
        (true, true, true) => 28,
    }
}

/// A program that asked for every mouse event gets each of them, for the cell
/// under the pointer counted from one. In the SGR encoding it is `ESC [ <`, the
/// number of the event, the column and the row in decimal, and `M`, or `m` for a
/// release. In the others it is `ESC [ M` and three characters, 32 higher than the
/// number, the column and the row, where a release has the number 3.
pub proof fn mouse_reports_name_the_event_and_the_cell(mouse: MouseEvent, column: u16, row: u16)
    requires
        column < u16::MAX,
        row < u16::MAX,
    ensures
        ({
            let number = event_number(mouse.kind) + modifier_weight(mouse.modifiers);
            let released = 3 + modifier_weight(mouse.modifiers);
            let code = if mouse.kind is Up {
                released
            } else {
                number
            };
            &&& mouse_bytes(
                mouse,
                column,
                row,
                MouseProtocolMode::AnyMotion,
                MouseProtocolEncoding::Sgr,
            ) == Some(
                seq![0x1bu8, 0x5bu8, 0x3cu8] + decimal_bytes(number as nat) + seq![0x3bu8]
                    + decimal_bytes((column + 1) as nat) + seq![0x3bu8] + decimal_bytes(
                    (row + 1) as nat,
                ) + seq![
                    if mouse.kind is Up {
                        0x6du8
                    } else {
                        0x4du8
                    },
                ],
            )
            &&& column < 223 && row < 223 ==> mouse_bytes(
                mouse,
                column,
                row,
                MouseProtocolMode::AnyMotion,
                MouseProtocolEncoding::Default,
            ) == Some(
                seq![
                    0x1bu8,
                    0x5bu8,
                    0x4du8,
                    (code + 32) as u8,
                    (column + 33) as u8,
                    (row + 33) as u8,
                ],
            )
            &&& column >= 223 || row >= 223 ==> mouse_bytes(
                mouse,
                column,
                row,
                MouseProtocolMode::AnyMotion,
                MouseProtocolEncoding::Default,
            ) is None
            &&& column < 2_000 && row < 2_000 ==> mouse_bytes(
                mouse,
                column,
                row,
                MouseProtocolMode::AnyMotion,
                MouseProtocolEncoding::Utf8,
            ) == Some(
                seq![0x1bu8, 0x5bu8, 0x4du8] + utf8_of((code + 32) as char) + utf8_of(
                    (column + 33) as char,
                ) + utf8_of((row + 33) as char),
            )
        }),
{
    let number = event_number(mouse.kind) + modifier_weight(mouse.modifiers);
    let code = if mouse.kind is Up {
        3 + modifier_weight(mouse.modifiers)
    } else {
        number
    };
    assert(0 <= number <= 95);
    let end = if mouse.kind is Up {
        0x6du8
    } else {
        0x4du8
    };
    let b = decimal_bytes(number as nat);
    let c = decimal_bytes((column + 1) as nat);
    let r = decimal_bytes((row + 1) as nat);
    assert(((seq![0x1bu8, 0x5bu8, 0x3cu8] + b).push(0x3bu8) + c.push(0x3bu8) + r.push(end))
        =~= seq![0x1bu8, 0x5bu8, 0x3cu8] + b + seq![0x3bu8] + c + seq![0x3bu8] + r + seq![end]);
    assert(crate::input::sgr_report(
        number as u8,
        (column + 1) as u16,
        (row + 1) as u16,
        mouse.kind is Up,
    ) == (seq![0x1bu8, 0x5bu8, 0x3cu8] + b).push(0x3bu8) + c.push(0x3bu8) + r.push(end));
    if column < 2_000 && row < 2_000 {
        assert(vstd::utf8::is_scalar((code + 32) as u32));
        assert(vstd::utf8::is_scalar((column + 33) as u32));
        assert(vstd::utf8::is_scalar((row + 33) as u32));
    }
}

} // verus!
