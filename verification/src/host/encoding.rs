//! The bytes that a terminal program reads for keys, pastes and the pointer.

use vstd::prelude::*;
use vstd::string::*;
use vstd::utf8::encode_utf8;

use crate::presentation::geometry::{bottom_of, covers, right_of, Position, Rect};
use crate::presentation::input::{
    TerminalButton, TerminalKeyCode, TerminalMouse, TerminalMouseKind,
};
use crate::text::{decimal, push_character, push_decimal};

verus! {

/// The control byte of a character: its code's low five bits, which letters of
/// either case share.
pub open spec fn control_of(character: char) -> u8 {
    (character as u32 % 32) as u8
}

/// The number in the escape sequence of a function key that has one.
pub open spec fn function_number(number: u8) -> nat {
    if number == 5 {
        15
    } else if 6 <= number <= 10 {
        (11 + number) as nat
    } else {
        (12 + number) as nat
    }
}

/// The bytes of a key. Keys without an agreed encoding have none.
pub open spec fn encoded_key(code: TerminalKeyCode, control: bool) -> Option<Seq<u8>> {
    match code {
        TerminalKeyCode::Char(character) => if control {
            Some(seq![control_of(character)])
        } else {
            Some(encode_utf8(seq![character]))
        },
        TerminalKeyCode::Enter => Some(seq![0x0du8]),
        TerminalKeyCode::Backspace => Some(seq![0x7fu8]),
        TerminalKeyCode::Esc => Some(seq![0x1bu8]),
        TerminalKeyCode::Tab => Some(seq![0x09u8]),
        TerminalKeyCode::Up => Some(encode_utf8("\x1b[A"@)),
        TerminalKeyCode::Down => Some(encode_utf8("\x1b[B"@)),
        TerminalKeyCode::Right => Some(encode_utf8("\x1b[C"@)),
        TerminalKeyCode::Left => Some(encode_utf8("\x1b[D"@)),
        TerminalKeyCode::Home => Some(encode_utf8("\x1b[H"@)),
        TerminalKeyCode::End => Some(encode_utf8("\x1b[F"@)),
        TerminalKeyCode::Delete => Some(encode_utf8("\x1b[3~"@)),
        TerminalKeyCode::F(number) => Some(
            encode_utf8(
                if number == 1 {
                    "\x1bOP"@
                } else if number == 2 {
                    "\x1bOQ"@
                } else if number == 3 {
                    "\x1bOR"@
                } else if number == 4 {
                    "\x1bOS"@
                } else {
                    "\x1b["@ + decimal(function_number(number)) + "~"@
                },
            ),
        ),
        _ => None,
    }
}

/// The bytes of a text.
pub fn bytes_of(text: &str) -> (bytes: Vec<u8>)
    ensures
        bytes@ == encode_utf8(text@),
{
    text.as_bytes_vec()
}

/// The bytes of one character.
pub fn character_bytes(character: char) -> (bytes: Vec<u8>)
    ensures
        bytes@ == encode_utf8(seq![character]),
{
    let mut text = "".to_owned();
    proof {
        reveal_strlit("");
    }
    push_character(&mut text, character);
    assert(text@ =~= seq![character]);
    bytes_of(text.as_str())
}

pub(crate) fn one_byte(byte: u8) -> (bytes: Vec<u8>)
    ensures
        bytes@ == seq![byte],
{
    let mut bytes: Vec<u8> = Vec::new();
    bytes.push(byte);
    assert(bytes@ =~= seq![byte]);
    bytes
}

fn function_bytes(number: u8) -> (bytes: Vec<u8>)
    ensures
        Some(bytes@) == encoded_key(TerminalKeyCode::F(number), false),
{
    match number {
        1 => bytes_of("\x1bOP"),
        2 => bytes_of("\x1bOQ"),
        3 => bytes_of("\x1bOR"),
        4 => bytes_of("\x1bOS"),
        _ => {
            let parameter: u64 = if number == 5 {
                15
            } else if 6 <= number && number <= 10 {
                number as u64 + 11
            } else {
                number as u64 + 12
            };
            let mut text = "\x1b[".to_owned();
            push_decimal(&mut text, parameter);
            text.append("~");
            bytes_of(text.as_str())
        },
    }
}

/// Encodes the common interactive keys without asking the application to know
/// about PTYs or terminal engines.
pub fn terminal_key_bytes(code: TerminalKeyCode, control: bool) -> (bytes: Option<Vec<u8>>)
    ensures
        bytes is Some <==> encoded_key(code, control) is Some,
        bytes matches Some(bytes) ==> Some(bytes@) == encoded_key(code, control),
{
    let bytes = match code {
        TerminalKeyCode::Char(character) => {
            if control {
                one_byte((character as u32 % 32) as u8)
            } else {
                character_bytes(character)
            }
        },
        TerminalKeyCode::Enter => one_byte(0x0d),
        TerminalKeyCode::Backspace => one_byte(0x7f),
        TerminalKeyCode::Esc => one_byte(0x1b),
        TerminalKeyCode::Tab => one_byte(0x09),
        TerminalKeyCode::Up => bytes_of("\x1b[A"),
        TerminalKeyCode::Down => bytes_of("\x1b[B"),
        TerminalKeyCode::Right => bytes_of("\x1b[C"),
        TerminalKeyCode::Left => bytes_of("\x1b[D"),
        TerminalKeyCode::Home => bytes_of("\x1b[H"),
        TerminalKeyCode::End => bytes_of("\x1b[F"),
        TerminalKeyCode::Delete => bytes_of("\x1b[3~"),
        TerminalKeyCode::F(number) => function_bytes(number),
        _ => return None,
    };
    Some(bytes)
}

/// Where a point lies in a viewport.
pub open spec fn position_in(viewport: Rect, column: u16, row: u16) -> Option<(u16, u16)> {
    if viewport.x <= column < right_of(viewport) && viewport.y <= row < bottom_of(viewport) {
        Some(((column - viewport.x) as u16, (row - viewport.y) as u16))
    } else {
        None
    }
}

/// Where a pointer event lies in a viewport, counted from its corner.
pub fn terminal_position(viewport: Rect, event: TerminalMouse) -> (position: Option<(u16, u16)>)
    ensures
        position == position_in(viewport, event.column, event.row),
{
    if event.column >= viewport.x && event.column < viewport.right() && event.row >= viewport.y
        && event.row < viewport.bottom() {
        Some((event.column - viewport.x, event.row - viewport.y))
    } else {
        None
    }
}

/// The button code of a pointer event, and whether it ends a press.
pub open spec fn pointer_code(kind: TerminalMouseKind) -> Option<(u8, bool)> {
    match kind {
        TerminalMouseKind::Down(TerminalButton::Left) => Some((0u8, false)),
        TerminalMouseKind::Drag(TerminalButton::Left) => Some((32u8, false)),
        TerminalMouseKind::Up(TerminalButton::Left) => Some((3u8, true)),
        TerminalMouseKind::ScrollUp => Some((64u8, false)),
        TerminalMouseKind::ScrollDown => Some((65u8, false)),
        _ => None,
    }
}

/// The text of a pointer report with decimal coordinates, counted from one.
pub open spec fn sgr_report(code: nat, column: nat, row: nat, release: bool) -> Seq<char> {
    "\x1b[<"@ + decimal(code) + ";"@ + decimal(column) + ";"@ + decimal(row) + (if release {
        "m"@
    } else {
        "M"@
    })
}

/// The bytes of a pointer report with one byte for each coordinate.
pub open spec fn byte_report(code: int, column: int, row: int) -> Seq<u8> {
    seq![0x1bu8, 0x5bu8, 0x4du8, (32 + code) as u8, (32 + column) as u8, (32 + row) as u8]
}

/// The bytes of a pointer event at a position of the viewport. A coordinate
/// that does not fit its byte cannot be reported in the older form.
pub open spec fn encoded_pointer(kind: TerminalMouseKind, position: (u16, u16), sgr: bool) -> Option<
    Seq<u8>,
> {
    match pointer_code(kind) {
        Some((code, release)) => if sgr {
            Some(
                encode_utf8(
                    sgr_report(
                        code as nat,
                        (position.0 + 1) as nat,
                        (position.1 + 1) as nat,
                        release,
                    ),
                ),
            )
        } else if position.0 + 33 <= 255 && position.1 + 33 <= 255 {
            Some(byte_report(code as int, position.0 + 1, position.1 + 1))
        } else {
            None
        },
        None => None,
    }
}

pub(crate) fn sgr_bytes(code: u8, column: u32, row: u32, release: bool) -> (bytes: Vec<u8>)
    ensures
        bytes@ == encode_utf8(sgr_report(code as nat, column as nat, row as nat, release)),
{
    let mut text = "\x1b[<".to_owned();
    push_decimal(&mut text, code as u64);
    text.append(";");
    push_decimal(&mut text, column as u64);
    text.append(";");
    push_decimal(&mut text, row as u64);
    text.append(
        if release {
            "m"
        } else {
            "M"
        },
    );
    bytes_of(text.as_str())
}

pub(crate) fn report_bytes(code: u8, column: u8, row: u8) -> (bytes: Vec<u8>)
    requires
        code + 32 <= 255,
        column + 32 <= 255,
        row + 32 <= 255,
    ensures
        bytes@ == byte_report(code as int, column as int, row as int),
{
    let mut bytes: Vec<u8> = Vec::new();
    bytes.push(0x1b);
    bytes.push(0x5b);
    bytes.push(0x4d);
    bytes.push(32 + code);
    bytes.push(32 + column);
    bytes.push(32 + row);
    assert(bytes@ =~= byte_report(code as int, column as int, row as int));
    bytes
}

/// Encodes a pointer event for a program that asked for pointer reports.
pub fn terminal_mouse_bytes(kind: TerminalMouseKind, position: (u16, u16), sgr_mouse: bool) -> (bytes:
    Option<Vec<u8>>)
    ensures
        bytes is Some <==> encoded_pointer(kind, position, sgr_mouse) is Some,
        bytes matches Some(bytes) ==> Some(bytes@) == encoded_pointer(kind, position, sgr_mouse),
{
    let (code, release): (u8, bool) = match kind {
        TerminalMouseKind::Down(TerminalButton::Left) => (0, false),
        TerminalMouseKind::Drag(TerminalButton::Left) => (32, false),
        TerminalMouseKind::Up(TerminalButton::Left) => (3, true),
        TerminalMouseKind::ScrollUp => (64, false),
        TerminalMouseKind::ScrollDown => (65, false),
        _ => return None,
    };
    if sgr_mouse {
        Some(sgr_bytes(code, position.0 as u32 + 1, position.1 as u32 + 1, release))
    } else if position.0 <= 222 && position.1 <= 222 {
        Some(report_bytes(code, position.0 as u8 + 1, position.1 as u8 + 1))
    } else {
        None
    }
}

/// The bytes of a paste. A program that asked for bracketed pastes can tell
/// them from typing.
pub open spec fn encoded_paste(text: Seq<char>, bracketed: bool) -> Seq<u8> {
    if bracketed {
        encode_utf8("\x1b[200~"@ + text + "\x1b[201~"@)
    } else {
        encode_utf8(text)
    }
}

pub fn paste_bytes(text: &str, bracketed: bool) -> (bytes: Vec<u8>)
    ensures
        bytes@ == encoded_paste(text@, bracketed),
{
    if bracketed {
        let mut framed = "\x1b[200~".to_owned();
        framed.append(text);
        framed.append("\x1b[201~");
        bytes_of(framed.as_str())
    } else {
        bytes_of(text)
    }
}

/// A pointer event inside the viewport is reported at a position inside it.
pub proof fn law_positions_stay_inside(viewport: Rect, column: u16, row: u16)
    ensures
        position_in(viewport, column, row) matches Some((x, y)) ==> x < viewport.width && y
            < viewport.height && viewport.x + x == column && viewport.y + y == row,
        position_in(viewport, column, row) is Some <==> covers(
            viewport,
            Position { x: column, y: row },
        ),
{
}

/// Letters of either case share their control byte, and it is what the
/// uppercase letter's distance from `@` says.
pub proof fn law_control_bytes_ignore_case(letter: char)
    requires
        'a' <= letter <= 'z',
    ensures
        control_of(letter) == letter as u32 - 96,
        control_of(((letter as u32 - 32) as u8) as char) == control_of(letter),
{
}

} // verus!
