//! A terminal program on the whole screen: what the standalone terminal sends
//! it, and how its cells look.

use vstd::prelude::*;
use vstd::string::*;
use vstd::utf8::encode_utf8;

use super::colors::Rgb;
use super::encoding::{
    byte_report, bytes_of, character_bytes, control_of, encoded_paste, one_byte, paste_bytes,
    report_bytes, sgr_bytes, sgr_report,
};
use super::screen::cell_text;
use crate::application::shell::ProcessModel;
use crate::presentation::input::{
    control_alone, no_modifiers, TerminalButton, TerminalKey, TerminalKeyCode, TerminalKeyKind,
    TerminalModifiers, TerminalMouse, TerminalMouseKind,
};
use crate::text::{decimal, opt_view, push_decimal, same_text, views};

verus! {

/// What the program asked of its terminal.
#[derive(Clone, Copy, Debug, PartialEq, Eq, Structural)]
pub struct TerminalModes {
    pub application_cursor: bool,
    pub bracketed_paste: bool,
    pub focus_reports: bool,
    /// Any kind of pointer report.
    pub mouse_reports: bool,
    pub mouse_drag: bool,
    pub mouse_motion: bool,
    pub sgr_mouse: bool,
}

/// The number that says which modifiers were held.
pub open spec fn modifier_number(modifiers: TerminalModifiers) -> int {
    1 + (if modifiers.shift {
        1int
    } else {
        0
    }) + (if modifiers.alt {
        2int
    } else {
        0
    }) + (if modifiers.control {
        4int
    } else {
        0
    })
}

/// The control byte of a character.
pub open spec fn control_byte_of(character: char) -> u8 {
    if character == '?' {
        0x7f
    } else {
        control_of(character)
    }
}

/// A cursor key's sequence.
pub open spec fn cursor_text(
    letter: Seq<char>,
    application: bool,
    modifiers: TerminalModifiers,
) -> Seq<char> {
    if modifiers == no_modifiers() {
        if application {
            "\x1bO"@ + letter
        } else {
            "\x1b["@ + letter
        }
    } else {
        "\x1b[1;"@ + decimal(modifier_number(modifiers) as nat) + letter
    }
}

/// An editing key's sequence.
pub open spec fn numbered_text(number: Seq<char>, modifiers: TerminalModifiers) -> Seq<char> {
    if modifiers == no_modifiers() {
        "\x1b["@ + number + "~"@
    } else {
        "\x1b["@ + number + ";"@ + decimal(modifier_number(modifiers) as nat) + "~"@
    }
}

/// The number in a function key's sequence.
pub open spec fn function_text(number: u8) -> Option<Seq<char>> {
    match number {
        1 => Some("1"@),
        2 => Some("12"@),
        3 => Some("13"@),
        4 => Some("14"@),
        5 => Some("15"@),
        6 => Some("17"@),
        7 => Some("18"@),
        8 => Some("19"@),
        9 => Some("20"@),
        10 => Some("21"@),
        11 => Some("23"@),
        12 => Some("24"@),
        _ => None,
    }
}

/// A function key's bytes. Keys beyond the twelfth have none.
pub open spec fn function_key_bytes(number: u8, modifiers: TerminalModifiers) -> Seq<u8> {
    if 1 <= number <= 4 && modifiers == no_modifiers() {
        encode_utf8(
            if number == 1 {
                "\x1bOP"@
            } else if number == 2 {
                "\x1bOQ"@
            } else if number == 3 {
                "\x1bOR"@
            } else {
                "\x1bOS"@
            },
        )
    } else {
        match function_text(number) {
            Some(text) => encode_utf8(numbered_text(text, modifiers)),
            None => Seq::empty(),
        }
    }
}

/// A key's bytes, without what Alt puts in front of them.
pub open spec fn plain_key_bytes(key: TerminalKey, modes: TerminalModes) -> Seq<u8> {
    let modifiers = key.modifiers;
    let application = modes.application_cursor;
    match key.code {
        TerminalKeyCode::Char(character) => if modifiers.control {
            seq![control_byte_of(character)]
        } else {
            encode_utf8(seq![character])
        },
        TerminalKeyCode::Enter => seq![0x0du8],
        TerminalKeyCode::Backspace => seq![0x7fu8],
        TerminalKeyCode::Esc => seq![0x1bu8],
        TerminalKeyCode::Tab => if modifiers.shift {
            encode_utf8("\x1b[Z"@)
        } else {
            seq![0x09u8]
        },
        TerminalKeyCode::Up => encode_utf8(cursor_text("A"@, application, modifiers)),
        TerminalKeyCode::Down => encode_utf8(cursor_text("B"@, application, modifiers)),
        TerminalKeyCode::Right => encode_utf8(cursor_text("C"@, application, modifiers)),
        TerminalKeyCode::Left => encode_utf8(cursor_text("D"@, application, modifiers)),
        TerminalKeyCode::Home => encode_utf8(cursor_text("H"@, application, modifiers)),
        TerminalKeyCode::End => encode_utf8(cursor_text("F"@, application, modifiers)),
        TerminalKeyCode::PageUp => encode_utf8(numbered_text("5"@, modifiers)),
        TerminalKeyCode::PageDown => encode_utf8(numbered_text("6"@, modifiers)),
        TerminalKeyCode::Insert => encode_utf8(numbered_text("2"@, modifiers)),
        TerminalKeyCode::Delete => encode_utf8(numbered_text("3"@, modifiers)),
        TerminalKeyCode::F(number) => function_key_bytes(number, modifiers),
        _ => Seq::empty(),
    }
}

/// A key's bytes. Alt puts an escape in front of every key that has bytes, the
/// escape key itself excepted.
pub open spec fn sent_key_bytes(key: TerminalKey, modes: TerminalModes) -> Seq<u8> {
    let plain = plain_key_bytes(key, modes);
    if plain.len() > 0 && key.modifiers.alt && key.code != TerminalKeyCode::Esc {
        seq![0x1bu8] + plain
    } else {
        plain
    }
}

/// The button code of a pointer event, and whether it ends a press. Motion is
/// reported only to programs that asked for it.
pub open spec fn reported_button(kind: TerminalMouseKind, modes: TerminalModes) -> Option<
    (u8, bool),
> {
    match kind {
        TerminalMouseKind::Down(TerminalButton::Left) => Some((0u8, false)),
        TerminalMouseKind::Down(TerminalButton::Middle) => Some((1u8, false)),
        TerminalMouseKind::Down(TerminalButton::Right) => Some((2u8, false)),
        TerminalMouseKind::Up(_) => Some((3u8, true)),
        TerminalMouseKind::Drag(TerminalButton::Left) => if modes.mouse_drag
            || modes.mouse_motion {
            Some((32u8, false))
        } else {
            None
        },
        TerminalMouseKind::Moved => if modes.mouse_motion {
            Some((35u8, false))
        } else {
            None
        },
        TerminalMouseKind::ScrollUp => Some((64u8, false)),
        TerminalMouseKind::ScrollDown => Some((65u8, false)),
        _ => None,
    }
}

/// What the modifiers add to a button code.
pub open spec fn button_modifiers(modifiers: TerminalModifiers) -> int {
    (if modifiers.shift {
        4int
    } else {
        0
    }) + (if modifiers.alt {
        8int
    } else {
        0
    }) + (if modifiers.control {
        16int
    } else {
        0
    })
}

/// A pointer event's bytes; none for a program that did not ask, or where a
/// coordinate does not fit the older form.
pub open spec fn sent_mouse_bytes(mouse: TerminalMouse, modes: TerminalModes) -> Seq<u8> {
    match reported_button(mouse.kind, modes) {
        Some((button, release)) => {
            let code = button + button_modifiers(mouse.modifiers);
            if !modes.mouse_reports {
                Seq::empty()
            } else if modes.sgr_mouse {
                encode_utf8(
                    sgr_report(
                        code as nat,
                        (mouse.column + 1) as nat,
                        (mouse.row + 1) as nat,
                        release,
                    ),
                )
            } else if mouse.column + 1 <= 223 && mouse.row + 1 <= 223 {
                byte_report(code, mouse.column + 1, mouse.row + 1)
            } else {
                Seq::empty()
            }
        },
        None => Seq::empty(),
    }
}

/// The control byte of a character.
pub fn control_byte(character: char) -> (byte: u8)
    ensures
        byte == control_byte_of(character),
{
    if character == '?' {
        0x7f
    } else {
        (character as u32 % 32) as u8
    }
}

/// The number that says which modifiers were held.
pub fn modifier_code(modifiers: TerminalModifiers) -> (code: u8)
    ensures
        code == modifier_number(modifiers),
{
    let shift: u8 = if modifiers.shift {
        1
    } else {
        0
    };
    let alt: u8 = if modifiers.alt {
        2
    } else {
        0
    };
    let control: u8 = if modifiers.control {
        4
    } else {
        0
    };
    1 + shift + alt + control
}

/// A cursor key's bytes.
pub fn cursor_key(letter: &str, application: bool, modifiers: TerminalModifiers) -> (bytes: Vec<u8>)
    ensures
        bytes@ == encode_utf8(cursor_text(letter@, application, modifiers)),
{
    let mut text = if modifiers == TerminalModifiers::none() {
        if application {
            "\x1bO".to_owned()
        } else {
            "\x1b[".to_owned()
        }
    } else {
        let mut text = "\x1b[1;".to_owned();
        push_decimal(&mut text, modifier_code(modifiers) as u64);
        text
    };
    text.append(letter);
    bytes_of(text.as_str())
}

/// An editing key's bytes.
pub fn modified_key(number: &str, modifiers: TerminalModifiers) -> (bytes: Vec<u8>)
    ensures
        bytes@ == encode_utf8(numbered_text(number@, modifiers)),
{
    let mut text = "\x1b[".to_owned();
    text.append(number);
    if modifiers != TerminalModifiers::none() {
        text.append(";");
        push_decimal(&mut text, modifier_code(modifiers) as u64);
    }
    text.append("~");
    bytes_of(text.as_str())
}

/// A function key's bytes.
pub fn function_key(number: u8, modifiers: TerminalModifiers) -> (bytes: Vec<u8>)
    ensures
        bytes@ == function_key_bytes(number, modifiers),
{
    if modifiers == TerminalModifiers::none() {
        match number {
            1 => return bytes_of("\x1bOP"),
            2 => return bytes_of("\x1bOQ"),
            3 => return bytes_of("\x1bOR"),
            4 => return bytes_of("\x1bOS"),
            _ => {},
        }
    }
    let sequence = match number {
        1 => "1",
        2 => "12",
        3 => "13",
        4 => "14",
        5 => "15",
        6 => "17",
        7 => "18",
        8 => "19",
        9 => "20",
        10 => "21",
        11 => "23",
        12 => "24",
        _ => {
            let none: Vec<u8> = Vec::new();
            assert(none@ =~= Seq::<u8>::empty());
            return none;
        },
    };
    modified_key(sequence, modifiers)
}

fn plain_bytes(key: TerminalKey, modes: TerminalModes) -> (bytes: Vec<u8>)
    ensures
        bytes@ == plain_key_bytes(key, modes),
{
    let modifiers = key.modifiers;
    let application = modes.application_cursor;
    match key.code {
        TerminalKeyCode::Char(character) => {
            if modifiers.control {
                one_byte(control_byte(character))
            } else {
                character_bytes(character)
            }
        },
        TerminalKeyCode::Enter => one_byte(0x0d),
        TerminalKeyCode::Backspace => one_byte(0x7f),
        TerminalKeyCode::Esc => one_byte(0x1b),
        TerminalKeyCode::Tab => {
            if modifiers.shift {
                bytes_of("\x1b[Z")
            } else {
                one_byte(0x09)
            }
        },
        TerminalKeyCode::Up => cursor_key("A", application, modifiers),
        TerminalKeyCode::Down => cursor_key("B", application, modifiers),
        TerminalKeyCode::Right => cursor_key("C", application, modifiers),
        TerminalKeyCode::Left => cursor_key("D", application, modifiers),
        TerminalKeyCode::Home => cursor_key("H", application, modifiers),
        TerminalKeyCode::End => cursor_key("F", application, modifiers),
        TerminalKeyCode::PageUp => modified_key("5", modifiers),
        TerminalKeyCode::PageDown => modified_key("6", modifiers),
        TerminalKeyCode::Insert => modified_key("2", modifiers),
        TerminalKeyCode::Delete => modified_key("3", modifiers),
        TerminalKeyCode::F(number) => function_key(number, modifiers),
        _ => {
            let none: Vec<u8> = Vec::new();
            assert(none@ =~= Seq::<u8>::empty());
            none
        },
    }
}

/// A key's bytes.
pub fn key_bytes(key: TerminalKey, modes: TerminalModes) -> (bytes: Vec<u8>)
    ensures
        bytes@ == sent_key_bytes(key, modes),
{
    let mut plain = plain_bytes(key, modes);
    if plain.len() > 0 && key.modifiers.alt && key.code != TerminalKeyCode::Esc {
        let mut bytes = one_byte(0x1b);
        bytes.append(&mut plain);
        bytes
    } else {
        plain
    }
}

/// A pointer event's bytes.
pub fn mouse_bytes(mouse: TerminalMouse, modes: TerminalModes) -> (bytes: Vec<u8>)
    ensures
        bytes@ == sent_mouse_bytes(mouse, modes),
{
    let none: Vec<u8> = Vec::new();
    assert(none@ =~= Seq::<u8>::empty());
    if !modes.mouse_reports {
        return none;
    }
    let (button, release): (u8, bool) = match mouse.kind {
        TerminalMouseKind::Down(TerminalButton::Left) => (0, false),
        TerminalMouseKind::Down(TerminalButton::Middle) => (1, false),
        TerminalMouseKind::Down(TerminalButton::Right) => (2, false),
        TerminalMouseKind::Up(_) => (3, true),
        TerminalMouseKind::Drag(TerminalButton::Left) if modes.mouse_drag || modes.mouse_motion => (
            32,
            false,
        ),
        TerminalMouseKind::Moved if modes.mouse_motion => (35, false),
        TerminalMouseKind::ScrollUp => (64, false),
        TerminalMouseKind::ScrollDown => (65, false),
        _ => return none,
    };
    let shift: u8 = if mouse.modifiers.shift {
        4
    } else {
        0
    };
    let alt: u8 = if mouse.modifiers.alt {
        8
    } else {
        0
    };
    let control: u8 = if mouse.modifiers.control {
        16
    } else {
        0
    };
    let code: u8 = button + (shift + alt + control);
    if modes.sgr_mouse {
        sgr_bytes(code, mouse.column as u32 + 1, mouse.row as u32 + 1, release)
    } else if mouse.column < 223 && mouse.row < 223 {
        report_bytes(code, mouse.column as u8 + 1, mouse.row as u8 + 1)
    } else {
        none
    }
}

/// What happens to the standalone terminal.
#[derive(Debug)]
pub enum StandaloneEvent {
    Key(TerminalKey),
    Paste(String),
    Mouse(TerminalMouse),
    FocusGained,
    FocusLost,
}

/// What the standalone terminal does about it.
#[derive(Debug, PartialEq, Eq)]
pub enum StandaloneAction {
    Quit,
    ToggleHidden,
    /// Bytes for the program, which may be none.
    Send(Vec<u8>),
    Ignore,
}

/// What a [`StandaloneAction`] says.
#[verifier::ext_equal]
pub enum StandaloneActionModel {
    Quit,
    ToggleHidden,
    Send(Seq<u8>),
    Ignore,
}

impl View for StandaloneAction {
    type V = StandaloneActionModel;

    open spec fn view(&self) -> StandaloneActionModel {
        match self {
            StandaloneAction::Quit => StandaloneActionModel::Quit,
            StandaloneAction::ToggleHidden => StandaloneActionModel::ToggleHidden,
            StandaloneAction::Send(bytes) => StandaloneActionModel::Send(bytes@),
            StandaloneAction::Ignore => StandaloneActionModel::Ignore,
        }
    }
}

/// What the standalone terminal does about an event: `ctrl+g` leaves, `ctrl+h`
/// hides or shows the program, and everything else is for the program.
pub open spec fn standalone_action(
    event: StandaloneEvent,
    modes: TerminalModes,
) -> StandaloneActionModel {
    match event {
        StandaloneEvent::Key(key) => if key.kind != TerminalKeyKind::Press {
            StandaloneActionModel::Ignore
        } else if key.code == TerminalKeyCode::Char('g') && key.modifiers == control_alone() {
            StandaloneActionModel::Quit
        } else if key.code == TerminalKeyCode::Char('h') && key.modifiers == control_alone() {
            StandaloneActionModel::ToggleHidden
        } else {
            StandaloneActionModel::Send(sent_key_bytes(key, modes))
        },
        StandaloneEvent::Paste(text) => StandaloneActionModel::Send(
            encoded_paste(text@, modes.bracketed_paste),
        ),
        StandaloneEvent::Mouse(mouse) => StandaloneActionModel::Send(
            sent_mouse_bytes(mouse, modes),
        ),
        StandaloneEvent::FocusGained => if modes.focus_reports {
            StandaloneActionModel::Send(encode_utf8("\x1b[I"@))
        } else {
            StandaloneActionModel::Ignore
        },
        StandaloneEvent::FocusLost => if modes.focus_reports {
            StandaloneActionModel::Send(encode_utf8("\x1b[O"@))
        } else {
            StandaloneActionModel::Ignore
        },
    }
}

/// Decides what the standalone terminal does about an event.
pub fn react(event: StandaloneEvent, modes: TerminalModes) -> (action: StandaloneAction)
    ensures
        action@ == standalone_action(event, modes),
{
    match event {
        StandaloneEvent::Key(key) => {
            if key.kind != TerminalKeyKind::Press {
                return StandaloneAction::Ignore;
            }
            if key.modifiers == TerminalModifiers::control() {
                if key.code == TerminalKeyCode::Char('g') {
                    return StandaloneAction::Quit;
                }
                if key.code == TerminalKeyCode::Char('h') {
                    return StandaloneAction::ToggleHidden;
                }
            }
            StandaloneAction::Send(key_bytes(key, modes))
        },
        StandaloneEvent::Paste(text) => StandaloneAction::Send(
            paste_bytes(text.as_str(), modes.bracketed_paste),
        ),
        StandaloneEvent::Mouse(mouse) => StandaloneAction::Send(mouse_bytes(mouse, modes)),
        StandaloneEvent::FocusGained => if modes.focus_reports {
            StandaloneAction::Send(bytes_of("\x1b[I"))
        } else {
            StandaloneAction::Ignore
        },
        StandaloneEvent::FocusLost => if modes.focus_reports {
            StandaloneAction::Send(bytes_of("\x1b[O"))
        } else {
            StandaloneAction::Ignore
        },
    }
}

/// The program that the standalone terminal runs.
#[derive(Debug, PartialEq, Eq)]
pub struct StandaloneShell {
    pub program: String,
    pub args: Vec<String>,
}

impl View for StandaloneShell {
    type V = ProcessModel;

    open spec fn view(&self) -> ProcessModel {
        ProcessModel { program: self.program@, args: views(self.args@) }
    }
}

/// The program that a command line asks for: the user's shell, `btop`, a shell
/// in a container, or any command.
pub open spec fn asked_program(args: Seq<Seq<char>>, shell: Option<Seq<char>>) -> Option<
    ProcessModel,
> {
    if args.len() == 0 {
        Some(
            ProcessModel {
                program: match shell {
                    Some(shell) => shell,
                    None => "/bin/sh"@,
                },
                args: Seq::empty(),
            },
        )
    } else if args.len() == 1 && args[0] == "--btop"@ {
        Some(ProcessModel { program: "btop"@, args: Seq::empty() })
    } else if args.len() >= 2 && args[0] == "--docker"@ {
        Some(
            ProcessModel {
                program: "docker"@,
                args: seq!["exec"@, "-it"@, args[1]] + args.skip(2),
            },
        )
    } else if args.len() >= 2 && args[0] == "--command"@ {
        Some(ProcessModel { program: args[1], args: args.skip(2) })
    } else {
        None
    }
}

/// How the standalone terminal is started.
pub const USAGE: &'static str = "usage: cargo run --bin alacritty_terminal_spike [-- --btop] | [-- --docker CONTAINER [SHELL...]] | [-- --command PROGRAM [ARG...]]";

fn push_rest(list: &mut Vec<String>, args: &Vec<String>)
    requires
        args.len() >= 2,
    ensures
        views(final(list)@) == views(old(list)@) + views(args@).skip(2),
{
    let ghost all = views(args@);
    let mut i: usize = 2;
    assert(views(list@) =~= views(list@) + all.subrange(2, 2));
    while i < args.len()
        invariant
            2 <= i <= args.len(),
            all == views(args@),
            views(list@) == views(old(list)@) + all.subrange(2, i as int),
        decreases args.len() - i,
    {
        let ghost before = list@;
        list.push(args[i].clone());
        assert(views(list@) =~= views(before).push(all[i as int]));
        assert(views(list@) =~= views(old(list)@) + all.subrange(2, i + 1));
        i = i + 1;
    }
    assert(all.subrange(2, i as int) =~= all.skip(2));
}

/// Reads the command line of the standalone terminal; `shell` is the user's.
pub fn shell_from_args(args: &Vec<String>, shell: Option<String>) -> (asked: Option<
    StandaloneShell,
>)
    ensures
        asked is Some <==> asked_program(views(args@), opt_view(shell)) is Some,
        asked matches Some(asked) ==> Some(asked@) == asked_program(
            views(args@),
            opt_view(shell),
        ),
{
    let mut list: Vec<String> = Vec::new();
    assert(views(list@) =~= Seq::<Seq<char>>::empty());
    if args.len() == 0 {
        let program = match shell {
            Some(shell) => shell,
            None => "/bin/sh".to_owned(),
        };
        return Some(StandaloneShell { program, args: list });
    }
    let flag = args[0].as_str();
    assert(views(args@)[0] == flag@);
    if args.len() == 1 {
        if same_text(flag, "--btop") {
            return Some(StandaloneShell { program: "btop".to_owned(), args: list });
        }
        proof {
            assert(asked_program(views(args@), opt_view(shell)) is None);
        }
        return None;
    }
    assert(views(args@)[1] == args@[1]@);
    if same_text(flag, "--docker") {
        list.push("exec".to_owned());
        list.push("-it".to_owned());
        list.push(args[1].clone());
        assert(views(list@) =~= seq!["exec"@, "-it"@, views(args@)[1]]);
        push_rest(&mut list, args);
        Some(StandaloneShell { program: "docker".to_owned(), args: list })
    } else if same_text(flag, "--command") {
        push_rest(&mut list, args);
        assert(views(list@) =~= views(args@).skip(2));
        Some(StandaloneShell { program: args[1].clone(), args: list })
    } else {
        None
    }
}

/// How many lines and columns a terminal has.
#[derive(Clone, Copy, Debug, PartialEq, Eq, Structural)]
pub struct GridSize {
    pub lines: u16,
    pub columns: u16,
}

/// The larger of two sizes.
pub open spec fn at_least(value: u16, least: u16) -> u16 {
    if value < least {
        least
    } else {
        value
    }
}

/// The grid of an area: a line and two columns at least.
pub open spec fn grid_of(width: u16, height: u16) -> GridSize {
    GridSize { lines: at_least(height, 1), columns: at_least(width, 2) }
}

/// The grid that fills an area. An emulator needs a line and two columns,
/// however small the area is.
pub fn grid_size(width: u16, height: u16) -> (size: GridSize)
    ensures
        size == grid_of(width, height),
{
    GridSize {
        lines: if height < 1 {
            1
        } else {
            height
        },
        columns: if width < 2 {
            2
        } else {
            width
        },
    }
}

/// What an emulator says of a cell's look.
#[derive(Clone, Copy, Debug, PartialEq, Eq, Structural)]
pub struct CellFlags {
    pub inverse: bool,
    pub bold: bool,
    pub dim: bool,
    pub italic: bool,
    pub underlined: bool,
    pub struck_out: bool,
    pub hidden: bool,
}

/// How a cell of the standalone terminal is drawn.
#[derive(Debug, PartialEq, Eq)]
pub struct StandaloneCell {
    pub symbol: String,
    pub foreground: Rgb,
    pub background: Rgb,
    pub bold: bool,
    pub dim: bool,
    pub italic: bool,
    pub underlined: bool,
    pub crossed_out: bool,
}

/// What stands in a cell.
pub open spec fn cell_symbol(character: char, zerowidth: Seq<char>, flags: CellFlags) -> Seq<char> {
    if flags.hidden {
        " "@
    } else {
        seq![character] + zerowidth
    }
}

/// A cell's foreground and background.
pub open spec fn cell_colours(flags: CellFlags, foreground: Rgb, background: Rgb) -> (Rgb, Rgb) {
    if flags.inverse {
        (background, foreground)
    } else {
        (foreground, background)
    }
}

/// Draws a cell: inverse exchanges its colours, and hidden leaves its symbol
/// out.
pub fn standalone_cell(
    character: char,
    zerowidth: &Vec<char>,
    flags: CellFlags,
    foreground: Rgb,
    background: Rgb,
) -> (cell: StandaloneCell)
    ensures
        cell.symbol@ == cell_symbol(character, zerowidth@, flags),
        (cell.foreground, cell.background) == cell_colours(flags, foreground, background),
        cell.bold == flags.bold,
        cell.dim == flags.dim,
        cell.italic == flags.italic,
        cell.underlined == flags.underlined,
        cell.crossed_out == flags.struck_out,
{
    let symbol = if flags.hidden {
        " ".to_owned()
    } else {
        cell_text(character, zerowidth)
    };
    let (foreground, background) = if flags.inverse {
        (background, foreground)
    } else {
        (foreground, background)
    };
    StandaloneCell {
        symbol,
        foreground,
        background,
        bold: flags.bold,
        dim: flags.dim,
        italic: flags.italic,
        underlined: flags.underlined,
        crossed_out: flags.struck_out,
    }
}

} // verus!
