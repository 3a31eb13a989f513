//! What a terminal program reads, key by key.

use vstd::prelude::*;
use vstd::utf8::encode_utf8;

use super::encoding::{encoded_key, encoded_paste, encoded_pointer};
use super::colors::Rgb;
use super::event_loop::start_grid;
use super::standalone::{
    asked_program, cell_colours, cell_symbol, grid_of, sent_key_bytes, sent_mouse_bytes,
    standalone_action, CellFlags, GridSize, StandaloneActionModel, StandaloneEvent, TerminalModes,
};
use crate::application::shell::ProcessModel;
use crate::presentation::input::{
    TerminalButton, TerminalKey, TerminalKeyCode, TerminalKeyKind, TerminalModifiers, TerminalMouse,
    TerminalMouseKind,
};
use crate::presentation::screen_layout::LayoutModel;
use crate::text::decimal;

verus! {

/// What a session's program reads for the keys that have a meaning of their
/// own; for a character, the character; and with control held, its low five
/// bits.
pub proof fn law_a_session_reads_its_keys(control: bool, character: char)
    ensures
        encoded_key(TerminalKeyCode::Enter, control) == Some(seq![13u8]),
        encoded_key(TerminalKeyCode::Backspace, control) == Some(seq![127u8]),
        encoded_key(TerminalKeyCode::Esc, control) == Some(seq![27u8]),
        encoded_key(TerminalKeyCode::Tab, control) == Some(seq![9u8]),
        encoded_key(TerminalKeyCode::Up, control) == Some(encode_utf8("\x1b[A"@)),
        encoded_key(TerminalKeyCode::Down, control) == Some(encode_utf8("\x1b[B"@)),
        encoded_key(TerminalKeyCode::Right, control) == Some(encode_utf8("\x1b[C"@)),
        encoded_key(TerminalKeyCode::Left, control) == Some(encode_utf8("\x1b[D"@)),
        encoded_key(TerminalKeyCode::Home, control) == Some(encode_utf8("\x1b[H"@)),
        encoded_key(TerminalKeyCode::End, control) == Some(encode_utf8("\x1b[F"@)),
        encoded_key(TerminalKeyCode::Delete, control) == Some(encode_utf8("\x1b[3~"@)),
        encoded_key(TerminalKeyCode::F(1), control) == Some(encode_utf8("\x1bOP"@)),
        encoded_key(TerminalKeyCode::F(2), control) == Some(encode_utf8("\x1bOQ"@)),
        encoded_key(TerminalKeyCode::F(3), control) == Some(encode_utf8("\x1bOR"@)),
        encoded_key(TerminalKeyCode::F(4), control) == Some(encode_utf8("\x1bOS"@)),
        encoded_key(TerminalKeyCode::PageUp, control) is None,
        encoded_key(TerminalKeyCode::PageDown, control) is None,
        encoded_key(TerminalKeyCode::Insert, control) is None,
        encoded_key(TerminalKeyCode::BackTab, control) is None,
        encoded_key(TerminalKeyCode::Other, control) is None,
        encoded_key(TerminalKeyCode::Char(character), false) == Some(encode_utf8(seq![character])),
        encoded_key(TerminalKeyCode::Char(character), true) == Some(
            seq![(character as u32 % 32) as u8],
        ),
{
}

/// The later function keys carry their number, which leaves out sixteen and
/// twenty-two.
pub proof fn law_later_function_keys_carry_their_number(number: u8, control: bool)
    requires
        5 <= number <= 12,
    ensures
        ({
            let carried: nat = if number == 5 {
                15
            } else if number == 6 {
                17
            } else if number == 7 {
                18
            } else if number == 8 {
                19
            } else if number == 9 {
                20
            } else if number == 10 {
                21
            } else if number == 11 {
                23
            } else {
                24
            };
            encoded_key(TerminalKeyCode::F(number), control) == Some(
                encode_utf8("\x1b["@ + decimal(carried) + "~"@),
            )
        }),
{
}

/// A program that asked for it reads pointer reports: a press, a drag, a
/// release or a turn of the wheel, and where, counted from one.
pub proof fn law_a_session_reads_the_pointer(x: u16, y: u16)
    ensures
        ({
            let place = ";"@ + decimal((x + 1) as nat) + ";"@ + decimal((y + 1) as nat);
            let at = (x, y);
            &&& encoded_pointer(TerminalMouseKind::Down(TerminalButton::Left), at, true) == Some(
                encode_utf8("\x1b[<"@ + decimal(0) + place + "M"@),
            )
            &&& encoded_pointer(TerminalMouseKind::Drag(TerminalButton::Left), at, true) == Some(
                encode_utf8("\x1b[<"@ + decimal(32) + place + "M"@),
            )
            &&& encoded_pointer(TerminalMouseKind::Up(TerminalButton::Left), at, true) == Some(
                encode_utf8("\x1b[<"@ + decimal(3) + place + "m"@),
            )
            &&& encoded_pointer(TerminalMouseKind::ScrollUp, at, true) == Some(
                encode_utf8("\x1b[<"@ + decimal(64) + place + "M"@),
            )
            &&& encoded_pointer(TerminalMouseKind::ScrollDown, at, true) == Some(
                encode_utf8("\x1b[<"@ + decimal(65) + place + "M"@),
            )
            &&& encoded_pointer(TerminalMouseKind::Moved, at, true) is None
            &&& encoded_pointer(TerminalMouseKind::Down(TerminalButton::Right), at, true) is None
        }),
        x <= 222 && y <= 222 ==> encoded_pointer(
            TerminalMouseKind::Down(TerminalButton::Left),
            (x, y),
            false,
        ) == Some(seq![27u8, 91, 77, 32, (x + 33) as u8, (y + 33) as u8]),
        x <= 222 && y <= 222 ==> encoded_pointer(TerminalMouseKind::ScrollDown, (x, y), false)
            == Some(seq![27u8, 91, 77, 97, (x + 33) as u8, (y + 33) as u8]),
        x <= 222 && y <= 222 ==> encoded_pointer(TerminalMouseKind::ScrollUp, (x, y), false)
            == Some(seq![27u8, 91, 77, 96, (x + 33) as u8, (y + 33) as u8]),
        x > 222 || y > 222 ==> encoded_pointer(
            TerminalMouseKind::Down(TerminalButton::Left),
            (x, y),
            false,
        ) is None,
{
    let place = ";"@ + decimal((x + 1) as nat) + ";"@ + decimal((y + 1) as nat);
    lemma_place(decimal(0), decimal((x + 1) as nat), decimal((y + 1) as nat), "M"@);
    lemma_place(decimal(32), decimal((x + 1) as nat), decimal((y + 1) as nat), "M"@);
    lemma_place(decimal(3), decimal((x + 1) as nat), decimal((y + 1) as nat), "m"@);
    lemma_place(decimal(64), decimal((x + 1) as nat), decimal((y + 1) as nat), "M"@);
    lemma_place(decimal(65), decimal((x + 1) as nat), decimal((y + 1) as nat), "M"@);
}

proof fn lemma_place(code: Seq<char>, column: Seq<char>, row: Seq<char>, ending: Seq<char>)
    ensures
        "\x1b[<"@ + code + ";"@ + column + ";"@ + row + ending == "\x1b[<"@ + code + (";"@ + column
            + ";"@ + row) + ending,
{
    assert("\x1b[<"@ + code + ";"@ + column + ";"@ + row + ending =~= "\x1b[<"@ + code + (";"@
        + column + ";"@ + row) + ending);
}

/// A paste reaches the program as it is, between the marks it asked for.
pub proof fn law_a_paste_is_passed_on(text: Seq<char>)
    ensures
        encoded_paste(text, false) == encode_utf8(text),
        encoded_paste(text, true) == encode_utf8("\x1b[200~"@ + text + "\x1b[201~"@),
{
}

/// A key held with no modifier.
pub open spec fn alone(code: TerminalKeyCode) -> TerminalKey {
    TerminalKey {
        code,
        modifiers: TerminalModifiers { shift: false, control: false, alt: false, other: false },
        kind: TerminalKeyKind::Press,
    }
}

/// What the standalone terminal sends for the keys without modifiers.
pub proof fn law_the_standalone_terminal_sends_its_keys(modes: TerminalModes, character: char)
    ensures
        sent_key_bytes(alone(TerminalKeyCode::Char(character)), modes) == encode_utf8(
            seq![character],
        ),
        sent_key_bytes(alone(TerminalKeyCode::Enter), modes) == seq![13u8],
        sent_key_bytes(alone(TerminalKeyCode::Backspace), modes) == seq![127u8],
        sent_key_bytes(alone(TerminalKeyCode::Esc), modes) == seq![27u8],
        sent_key_bytes(alone(TerminalKeyCode::Tab), modes) == seq![9u8],
        sent_key_bytes(alone(TerminalKeyCode::PageUp), modes) == encode_utf8(
            "\x1b["@ + "5"@ + "~"@,
        ),
        sent_key_bytes(alone(TerminalKeyCode::PageDown), modes) == encode_utf8(
            "\x1b["@ + "6"@ + "~"@,
        ),
        sent_key_bytes(alone(TerminalKeyCode::Insert), modes) == encode_utf8(
            "\x1b["@ + "2"@ + "~"@,
        ),
        sent_key_bytes(alone(TerminalKeyCode::Delete), modes) == encode_utf8(
            "\x1b["@ + "3"@ + "~"@,
        ),
        ({
            let lead = if modes.application_cursor {
                "\x1bO"@
            } else {
                "\x1b["@
            };
            &&& sent_key_bytes(alone(TerminalKeyCode::Up), modes) == encode_utf8(lead + "A"@)
            &&& sent_key_bytes(alone(TerminalKeyCode::Down), modes) == encode_utf8(lead + "B"@)
            &&& sent_key_bytes(alone(TerminalKeyCode::Right), modes) == encode_utf8(lead + "C"@)
            &&& sent_key_bytes(alone(TerminalKeyCode::Left), modes) == encode_utf8(lead + "D"@)
            &&& sent_key_bytes(alone(TerminalKeyCode::Home), modes) == encode_utf8(lead + "H"@)
            &&& sent_key_bytes(alone(TerminalKeyCode::End), modes) == encode_utf8(lead + "F"@)
        }),
        sent_key_bytes(alone(TerminalKeyCode::F(1)), modes) == encode_utf8("\x1bOP"@),
        sent_key_bytes(alone(TerminalKeyCode::F(2)), modes) == encode_utf8("\x1bOQ"@),
        sent_key_bytes(alone(TerminalKeyCode::F(3)), modes) == encode_utf8("\x1bOR"@),
        sent_key_bytes(alone(TerminalKeyCode::F(4)), modes) == encode_utf8("\x1bOS"@),
        sent_key_bytes(alone(TerminalKeyCode::F(5)), modes) == encode_utf8(
            "\x1b["@ + "15"@ + "~"@,
        ),
        sent_key_bytes(alone(TerminalKeyCode::F(6)), modes) == encode_utf8(
            "\x1b["@ + "17"@ + "~"@,
        ),
        sent_key_bytes(alone(TerminalKeyCode::F(7)), modes) == encode_utf8(
            "\x1b["@ + "18"@ + "~"@,
        ),
        sent_key_bytes(alone(TerminalKeyCode::F(8)), modes) == encode_utf8(
            "\x1b["@ + "19"@ + "~"@,
        ),
        sent_key_bytes(alone(TerminalKeyCode::F(9)), modes) == encode_utf8(
            "\x1b["@ + "20"@ + "~"@,
        ),
        sent_key_bytes(alone(TerminalKeyCode::F(10)), modes) == encode_utf8(
            "\x1b["@ + "21"@ + "~"@,
        ),
        sent_key_bytes(alone(TerminalKeyCode::F(11)), modes) == encode_utf8(
            "\x1b["@ + "23"@ + "~"@,
        ),
        sent_key_bytes(alone(TerminalKeyCode::F(12)), modes) == encode_utf8(
            "\x1b["@ + "24"@ + "~"@,
        ),
{
}

/// What the standalone terminal sends with modifiers held: a cursor key says
/// which, one for shift, two for alt and four for control on top of one; alt
/// puts an escape in front; control leaves a character its low five bits.
pub proof fn law_the_standalone_terminal_reports_modifiers(
    modifiers: TerminalModifiers,
    modes: TerminalModes,
    character: char,
)
    requires
        modifiers.shift || modifiers.alt || modifiers.control,
        character != '?',
    ensures
        ({
            let number = (1 + (if modifiers.shift {
                1int
            } else {
                0
            }) + (if modifiers.alt {
                2int
            } else {
                0
            }) + (if modifiers.control {
                4int
            } else {
                0
            })) as nat;
            let up = encode_utf8("\x1b[1;"@ + decimal(number) + "A"@);
            let delete = encode_utf8("\x1b["@ + "3"@ + ";"@ + decimal(number) + "~"@);
            let typed = if modifiers.control {
                seq![(character as u32 % 32) as u8]
            } else {
                encode_utf8(seq![character])
            };
            let pressed = |code: TerminalKeyCode|
                sent_key_bytes(
                    TerminalKey { code, modifiers, kind: TerminalKeyKind::Press },
                    modes,
                );
            &&& up.len() > 0 && !modifiers.alt ==> pressed(TerminalKeyCode::Up) == up
            &&& up.len() > 0 && modifiers.alt ==> pressed(TerminalKeyCode::Up) == seq![27u8] + up
            &&& delete.len() > 0 ==> pressed(TerminalKeyCode::Delete) == (if modifiers.alt {
                seq![27u8] + delete
            } else {
                delete
            })
            &&& typed.len() > 0 ==> pressed(TerminalKeyCode::Char(character)) == (
            if modifiers.alt {
                seq![27u8] + typed
            } else {
                typed
            })
            &&& pressed(TerminalKeyCode::Esc) == seq![27u8]
            &&& pressed(TerminalKeyCode::Enter) == (if modifiers.alt {
                seq![27u8, 13u8]
            } else {
                seq![13u8]
            })
        }),
{
    assert(seq![27u8] + seq![13u8] =~= seq![27u8, 13u8]);
}

/// The buttons that the standalone terminal reports, with four for shift, eight
/// for alt and sixteen for control added, to a program that asked.
pub proof fn law_the_standalone_terminal_reports_buttons(
    mouse: TerminalMouse,
    modes: TerminalModes,
)
    ensures
        !modes.mouse_reports ==> sent_mouse_bytes(mouse, modes).len() == 0,
        modes.mouse_reports && modes.sgr_mouse ==> ({
            let held = (if mouse.modifiers.shift {
                4int
            } else {
                0
            }) + (if mouse.modifiers.alt {
                8int
            } else {
                0
            }) + (if mouse.modifiers.control {
                16int
            } else {
                0
            });
            let sent = |button: int, ending: Seq<char>|
                encode_utf8(
                    "\x1b[<"@ + decimal((button + held) as nat) + ";"@ + decimal(
                        (mouse.column + 1) as nat,
                    ) + ";"@ + decimal((mouse.row + 1) as nat) + ending,
                );
            match mouse.kind {
                TerminalMouseKind::Down(TerminalButton::Left) => sent_mouse_bytes(mouse, modes)
                    == sent(0, "M"@),
                TerminalMouseKind::Down(TerminalButton::Middle) => sent_mouse_bytes(mouse, modes)
                    == sent(1, "M"@),
                TerminalMouseKind::Down(TerminalButton::Right) => sent_mouse_bytes(mouse, modes)
                    == sent(2, "M"@),
                TerminalMouseKind::Up(_) => sent_mouse_bytes(mouse, modes) == sent(3, "m"@),
                TerminalMouseKind::ScrollUp => sent_mouse_bytes(mouse, modes) == sent(64, "M"@),
                TerminalMouseKind::ScrollDown => sent_mouse_bytes(mouse, modes) == sent(65, "M"@),
                TerminalMouseKind::Drag(TerminalButton::Left) => if modes.mouse_drag
                    || modes.mouse_motion {
                    sent_mouse_bytes(mouse, modes) == sent(32, "M"@)
                } else {
                    sent_mouse_bytes(mouse, modes).len() == 0
                },
                TerminalMouseKind::Moved => if modes.mouse_motion {
                    sent_mouse_bytes(mouse, modes) == sent(35, "M"@)
                } else {
                    sent_mouse_bytes(mouse, modes).len() == 0
                },
                _ => sent_mouse_bytes(mouse, modes).len() == 0,
            }
        }),
{
}

/// Control and `g` leave the standalone terminal, control and `h` hide or show
/// its program; released keys mean nothing, and every other event goes to the
/// program that asked for it.
pub proof fn law_the_standalone_terminal_keeps_two_keys(event: StandaloneEvent, modes: TerminalModes)
    ensures
        match event {
            StandaloneEvent::Key(key) => {
                let control = key.modifiers.control && !key.modifiers.shift && !key.modifiers.alt
                    && !key.modifiers.other;
                &&& key.kind != TerminalKeyKind::Press ==> standalone_action(event, modes)
                    == StandaloneActionModel::Ignore
                &&& key.kind == TerminalKeyKind::Press ==> standalone_action(event, modes) == (
                if control && key.code == TerminalKeyCode::Char('g') {
                    StandaloneActionModel::Quit
                } else if control && key.code == TerminalKeyCode::Char('h') {
                    StandaloneActionModel::ToggleHidden
                } else {
                    StandaloneActionModel::Send(sent_key_bytes(key, modes))
                })
            },
            StandaloneEvent::FocusGained => standalone_action(event, modes) == (
            if modes.focus_reports {
                StandaloneActionModel::Send(encode_utf8("\x1b[I"@))
            } else {
                StandaloneActionModel::Ignore
            }),
            StandaloneEvent::FocusLost => standalone_action(event, modes) == (
            if modes.focus_reports {
                StandaloneActionModel::Send(encode_utf8("\x1b[O"@))
            } else {
                StandaloneActionModel::Ignore
            }),
            StandaloneEvent::Mouse(mouse) => standalone_action(event, modes)
                == StandaloneActionModel::Send(sent_mouse_bytes(mouse, modes)),
            StandaloneEvent::Paste(text) => standalone_action(event, modes)
                == StandaloneActionModel::Send(
                if modes.bracketed_paste {
                    encode_utf8("\x1b[200~"@ + text@ + "\x1b[201~"@)
                } else {
                    encode_utf8(text@)
                },
            ),
        },
{
}

/// The standalone terminal runs the user's shell, `btop`, a shell inside a
/// container, or the command it was given with its arguments.
pub proof fn law_the_standalone_terminal_runs_what_it_is_given(
    args: Seq<Seq<char>>,
    shell: Seq<char>,
    container: Seq<char>,
    rest: Seq<Seq<char>>,
)
    ensures
        asked_program(Seq::empty(), Some(shell)) == Some(
            ProcessModel { program: shell, args: Seq::empty() },
        ),
        asked_program(Seq::empty(), None) == Some(
            ProcessModel { program: "/bin/sh"@, args: Seq::empty() },
        ),
        asked_program(seq!["--btop"@], Some(shell)) == Some(
            ProcessModel { program: "btop"@, args: Seq::empty() },
        ),
        asked_program(seq!["--docker"@, container] + rest, None) == Some(
            ProcessModel { program: "docker"@, args: seq!["exec"@, "-it"@, container] + rest },
        ),
        asked_program(seq!["--command"@, container] + rest, None) == Some(
            ProcessModel { program: container, args: rest },
        ),
        args.len() > 0 && args[0] != "--btop"@ && args[0] != "--docker"@ && args[0] != "--command"@
            ==> asked_program(args, Some(shell)) is None,
{
    let docker = seq!["--docker"@, container] + rest;
    let command = seq!["--command"@, container] + rest;
    assert(docker.skip(2) =~= rest);
    assert(command.skip(2) =~= rest);
    reveal_strlit("--docker");
    reveal_strlit("--command");
    assert("--docker"@.len() != "--command"@.len());
}

/// A terminal has as many lines and columns as its place has, one line and two
/// columns at least; a session without a place starts with twenty-four lines
/// of eighty columns.
pub proof fn law_a_terminal_fills_its_place(width: u16, height: u16, layout: LayoutModel)
    ensures
        1 <= height ==> grid_of(width, height).lines == height,
        2 <= width ==> grid_of(width, height).columns == width,
        grid_of(width, 0).lines == 1,
        width < 2 ==> grid_of(width, height).columns == 2,
        start_grid(None) == (GridSize { lines: 24, columns: 80 }),
        layout.resource_shell is None ==> start_grid(Some(layout)) == (GridSize {
            lines: 24,
            columns: 80,
        }),
        layout.resource_shell matches Some(shell) ==> start_grid(Some(layout)) == grid_of(
            shell.terminal.width,
            shell.terminal.height,
        ),
{
}

/// An inverse cell has its colours exchanged, and a hidden one shows a blank.
pub proof fn law_a_cell_looks_as_it_is_flagged(
    character: char,
    zerowidth: Seq<char>,
    flags: CellFlags,
    foreground: Rgb,
    background: Rgb,
)
    ensures
        flags.hidden ==> cell_symbol(character, zerowidth, flags) == " "@,
        !flags.hidden ==> cell_symbol(character, zerowidth, flags) == seq![character] + zerowidth,
        flags.inverse ==> cell_colours(flags, foreground, background) == (background, foreground),
        !flags.inverse ==> cell_colours(flags, foreground, background) == (foreground, background),
{
}

} // verus!
