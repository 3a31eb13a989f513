//! Terminal bytes, colours, screens, and the clipboard.

use tuivir::application::{Key, ResourceShellControls, ResourceShellSessionId};
use tuivir::host::clipboard::{clipboard_sequence, encode_base64};
use tuivir::host::colors::{
    indexed_rgb, named_rgb, resolve_color, terminal_color, CellColor, EmulatedColor, NamedColor,
    Rgb,
};
use tuivir::host::encoding::{
    paste_bytes, terminal_key_bytes, terminal_mouse_bytes, terminal_position,
};
use tuivir::host::screen::{screen, EmulatedCell};
use tuivir::host::shell_input::{ShellInputRouter, ShellKeyRoute, ShellPointerRoute};
use tuivir::host::standalone::{
    control_byte, function_key, grid_size, key_bytes, mouse_bytes, react, shell_from_args,
    standalone_cell, CellFlags, GridSize, StandaloneAction, StandaloneEvent, TerminalModes,
};
use tuivir::presentation::geometry::Rect;
use tuivir::presentation::input::{
    TerminalButton, TerminalKey, TerminalKeyCode, TerminalKeyKind, TerminalModifiers,
    TerminalMouse, TerminalMouseKind,
};

const LEFT: TerminalButton = TerminalButton::Left;

fn key(code: TerminalKeyCode) -> TerminalKey {
    TerminalKey::new(code, TerminalModifiers::none())
}

fn ctrl(character: char) -> TerminalKey {
    TerminalKey::new(TerminalKeyCode::Char(character), TerminalModifiers::control())
}

fn alt(code: TerminalKeyCode) -> TerminalKey {
    TerminalKey::new(
        code,
        TerminalModifiers {
            alt: true,
            ..TerminalModifiers::none()
        },
    )
}

fn mouse(kind: TerminalMouseKind, column: u16, row: u16) -> TerminalMouse {
    TerminalMouse {
        kind,
        column,
        row,
        modifiers: TerminalModifiers::none(),
    }
}

fn modes() -> TerminalModes {
    TerminalModes {
        application_cursor: false,
        bracketed_paste: false,
        focus_reports: false,
        mouse_reports: false,
        mouse_drag: false,
        mouse_motion: false,
        sgr_mouse: false,
    }
}

#[test]
fn session_keys_have_their_usual_bytes() {
    for (code, control, bytes) in [
        (TerminalKeyCode::Char('a'), false, &b"a"[..]),
        (TerminalKeyCode::Char('a'), true, b"\x01"),
        (TerminalKeyCode::Char('A'), true, b"\x01"),
        (TerminalKeyCode::Char('鮫'), false, b"\xe9\xae\xab"),
        (TerminalKeyCode::Enter, false, b"\r"),
        (TerminalKeyCode::Backspace, false, b"\x7f"),
        (TerminalKeyCode::Tab, false, b"\t"),
        (TerminalKeyCode::Up, false, b"\x1b[A"),
        (TerminalKeyCode::Down, false, b"\x1b[B"),
        (TerminalKeyCode::Right, false, b"\x1b[C"),
        (TerminalKeyCode::Left, false, b"\x1b[D"),
        (TerminalKeyCode::Home, false, b"\x1b[H"),
        (TerminalKeyCode::End, false, b"\x1b[F"),
        (TerminalKeyCode::Delete, false, b"\x1b[3~"),
        (TerminalKeyCode::F(4), false, b"\x1bOS"),
        (TerminalKeyCode::F(5), false, b"\x1b[15~"),
        (TerminalKeyCode::F(6), false, b"\x1b[17~"),
        (TerminalKeyCode::F(10), false, b"\x1b[21~"),
        (TerminalKeyCode::F(11), false, b"\x1b[23~"),
        (TerminalKeyCode::F(12), false, b"\x1b[24~"),
    ] {
        assert_eq!(terminal_key_bytes(code, control).as_deref(), Some(bytes));
    }
    assert_eq!(terminal_key_bytes(TerminalKeyCode::PageUp, false), None);
    assert_eq!(terminal_key_bytes(TerminalKeyCode::BackTab, false), None);
}

#[test]
fn pointer_reports_come_in_two_forms() {
    let down = TerminalMouseKind::Down(LEFT);
    assert_eq!(
        terminal_mouse_bytes(TerminalMouseKind::Up(LEFT), (299, 0), true).as_deref(),
        Some(&b"\x1b[<3;300;1m"[..])
    );
    assert_eq!(
        terminal_mouse_bytes(down, (2, 3), false).as_deref(),
        Some(&[0x1b, b'[', b'M', 32, 35, 36][..])
    );
    assert_eq!(
        terminal_mouse_bytes(TerminalMouseKind::ScrollDown, (222, 0), false).as_deref(),
        Some(&[0x1b, b'[', b'M', 97, 255, 33][..])
    );
    assert_eq!(terminal_mouse_bytes(down, (223, 0), false), None);
    assert_eq!(
        terminal_mouse_bytes(TerminalMouseKind::Moved, (0, 0), true),
        None
    );
}

#[test]
fn positions_count_from_the_viewports_corner() {
    let viewport = Rect::new(10, 20, 40, 10);
    let down = TerminalMouseKind::Down(LEFT);
    assert_eq!(
        terminal_position(viewport, mouse(down, 49, 29)),
        Some((39, 9))
    );
    assert_eq!(terminal_position(viewport, mouse(down, 50, 29)), None);
    assert_eq!(terminal_position(viewport, mouse(down, 9, 20)), None);
}

#[test]
fn base64_pads_what_is_left_over() {
    for (bytes, text) in [
        (&b""[..], ""),
        (b"f", "Zg=="),
        (b"fo", "Zm8="),
        (b"foo", "Zm9v"),
        (b"foob", "Zm9vYg=="),
        (b"\xff\xfe\xfd", "//79"),
        (b"\xfb\xff", "+/8="),
    ] {
        assert_eq!(encode_base64(&bytes.to_vec()), text);
    }
    assert_eq!(clipboard_sequence(""), "\x1b]52;c;\x07");
    assert_eq!(clipboard_sequence("鮫"), "\x1b]52;c;6a6r\x07");
}

#[test]
fn a_paste_is_bracketed_only_where_it_is_asked_for() {
    assert_eq!(paste_bytes("x", true), b"\x1b[200~x\x1b[201~");
    assert_eq!(paste_bytes("x", false), b"x");
}

fn session() -> ResourceShellSessionId {
    ResourceShellSessionId::new(3)
}

fn configured() -> ShellInputRouter {
    let controls = ResourceShellControls::effective(
        Some("ctrl+a".to_owned()),
        vec![("focus_tuivir".to_owned(), vec!["D".to_owned()])],
    )
    .expect("valid controls");
    ShellInputRouter::with_controls(controls)
}

#[test]
fn configured_controls_replace_the_compiled_ones() {
    let mut router = configured();
    assert_eq!(
        router.route(session(), ctrl('b')),
        ShellKeyRoute::ToPty(vec![0x02])
    );
    assert_eq!(router.route(session(), ctrl('a')), ShellKeyRoute::ToTuivir);
    let shifted = TerminalKey::new(
        TerminalKeyCode::Char('D'),
        TerminalModifiers {
            shift: true,
            ..TerminalModifiers::none()
        },
    );
    assert_eq!(router.route(session(), shifted), ShellKeyRoute::Released);

    let mut router = configured();
    let _ = router.route(session(), ctrl('a'));
    assert_eq!(
        router.route(session(), ctrl('a')),
        ShellKeyRoute::ToPty(vec![0x01])
    );
}

#[test]
fn a_released_keyboard_is_taken_back_with_enter() {
    let mut router = ShellInputRouter::default();
    let _ = router.route(session(), ctrl('b'));
    let _ = router.route(session(), key(TerminalKeyCode::Char('q')));
    assert_eq!(
        router.route(session(), ctrl('c')),
        ShellKeyRoute::ToTuivir
    );
    assert_eq!(
        router.route_paste(session(), "x", false),
        ShellKeyRoute::ToTuivir
    );
    assert_eq!(
        router.route(session(), key(TerminalKeyCode::Enter)),
        ShellKeyRoute::ToPty(vec![b'\r'])
    );
    assert_eq!(
        router.route(session(), key(TerminalKeyCode::Char('x'))),
        ShellKeyRoute::ToPty(vec![b'x'])
    );
}

#[test]
fn without_a_terminal_only_the_controls_work() {
    let mut router = ShellInputRouter::default();
    assert_eq!(
        router.route_without_terminal(session(), key(TerminalKeyCode::Char('q'))),
        ShellKeyRoute::ToTuivir
    );
    for (code, route) in [
        ('q', ShellKeyRoute::Released),
        ('z', ShellKeyRoute::ToggleSize),
        ('x', ShellKeyRoute::ToTuivir),
    ] {
        assert_eq!(
            router.route_without_terminal(session(), ctrl('b')),
            ShellKeyRoute::ToTuivir
        );
        assert_eq!(
            router.route_without_terminal(session(), key(TerminalKeyCode::Char(code))),
            route
        );
    }
}

#[test]
fn another_session_starts_with_the_keyboard_and_no_prefix() {
    let mut router = ShellInputRouter::default();
    let _ = router.route(session(), ctrl('b'));
    assert_eq!(
        router.route(
            ResourceShellSessionId::new(4),
            key(TerminalKeyCode::Char('q'))
        ),
        ShellKeyRoute::ToPty(vec![b'q'])
    );
}

#[test]
fn a_click_gives_a_session_the_keyboard_and_a_click_elsewhere_takes_it() {
    let area = Rect::new(10, 20, 40, 10);
    let mut router = ShellInputRouter::default();
    for kind in [
        TerminalMouseKind::Down(LEFT),
        TerminalMouseKind::Up(LEFT),
    ] {
        assert_eq!(
            router.route_mouse(session(), mouse(kind, 12, 23), area, false, false),
            ShellPointerRoute::Nowhere
        );
    }
    assert!(router.focused);
    assert_eq!(
        router.route_mouse(
            session(),
            mouse(TerminalMouseKind::Down(LEFT), 0, 0),
            area,
            false,
            false
        ),
        ShellPointerRoute::ToTuivir
    );
    assert!(!router.focused);
    assert_eq!(
        router.route_mouse(
            session(),
            mouse(TerminalMouseKind::ScrollDown, 12, 23),
            area,
            false,
            false
        ),
        ShellPointerRoute::Scroll { lines: -3 }
    );
    assert_eq!(
        router.route_mouse(
            session(),
            mouse(TerminalMouseKind::Drag(LEFT), 12, 23),
            area,
            false,
            false
        ),
        ShellPointerRoute::Nowhere
    );
}

fn rgb(r: u8, g: u8, b: u8) -> Rgb {
    Rgb { r, g, b }
}

#[test]
fn colour_numbers_have_their_colours() {
    assert_eq!(indexed_rgb(0), rgb(0, 0, 0));
    assert_eq!(indexed_rgb(1), rgb(205, 49, 49));
    assert_eq!(indexed_rgb(15), rgb(255, 255, 255));
    assert_eq!(indexed_rgb(16), rgb(0, 0, 0));
    assert_eq!(indexed_rgb(17), rgb(0, 0, 95));
    assert_eq!(indexed_rgb(196), rgb(255, 0, 0));
    assert_eq!(indexed_rgb(231), rgb(255, 255, 255));
    assert_eq!(indexed_rgb(232), rgb(8, 8, 8));
    assert_eq!(indexed_rgb(255), rgb(238, 238, 238));
    assert_eq!(named_rgb(NamedColor::DimCyan), rgb(17, 168, 205));
    assert_eq!(named_rgb(NamedColor::DimForeground), rgb(102, 102, 102));
    assert_eq!(
        resolve_color(EmulatedColor::Indexed(1), Some(rgb(1, 2, 3))),
        rgb(1, 2, 3)
    );
    assert_eq!(
        resolve_color(EmulatedColor::Spec(rgb(9, 9, 9)), Some(rgb(1, 2, 3))),
        rgb(9, 9, 9)
    );
    assert_eq!(
        terminal_color(EmulatedColor::Named(NamedColor::Red)),
        Some(CellColor::Red)
    );
    assert_eq!(
        terminal_color(EmulatedColor::Named(NamedColor::White)),
        Some(CellColor::Gray)
    );
    assert_eq!(
        terminal_color(EmulatedColor::Named(NamedColor::Foreground)),
        None
    );
}

fn cells(text: &str) -> Vec<EmulatedCell> {
    text.chars()
        .map(|character| EmulatedCell {
            character,
            zerowidth: Vec::new(),
            foreground: EmulatedColor::Named(NamedColor::Red),
            background: EmulatedColor::Named(NamedColor::Background),
        })
        .collect()
}

#[test]
fn a_grid_becomes_lines_of_cells() {
    let mut grid = cells("abcdefg");
    grid[1].zerowidth.push('\u{301}');
    let screen = screen(&grid, 3, 1, 2, Some(((0, 0), (0, 1))));
    assert_eq!(screen.lines.len(), 2);
    assert_eq!(screen.lines[0][1].text, "b\u{301}");
    assert_eq!(screen.lines[0][0].foreground, Some(CellColor::Red));
    assert_eq!(screen.lines[0][0].background, None);
    assert!(screen.lines[1][2].cursor);
    assert!(!screen.lines[0][2].cursor);
    assert_eq!(screen.selected_text().as_deref(), Some("a\nd"));
}

#[test]
fn a_selection_reads_the_same_from_either_end() {
    let grid = cells("ab cd   ");
    let forwards = screen(&grid, 4, -1, 0, Some(((1, 0), (2, 1))));
    let backwards = screen(&grid, 4, -1, 0, Some(((2, 1), (1, 0))));
    assert_eq!(forwards.selected_text(), backwards.selected_text());
    assert!(forwards.lines.iter().flatten().all(|cell| !cell.cursor));
    assert_eq!(screen(&grid, 4, 0, 0, None).selected_text(), None);
    assert_eq!(
        screen(&cells("   "), 3, 0, 0, Some(((0, 0), (2, 0)))).selected_text(),
        None
    );
}

#[test]
fn the_standalone_terminal_encodes_modified_keys() {
    let application = TerminalModes {
        application_cursor: true,
        ..modes()
    };
    assert_eq!(key_bytes(key(TerminalKeyCode::Up), modes()), b"\x1b[A");
    assert_eq!(key_bytes(key(TerminalKeyCode::Up), application), b"\x1bOA");
    assert_eq!(
        key_bytes(alt(TerminalKeyCode::Up), modes()),
        b"\x1b\x1b[1;3A"
    );
    assert_eq!(key_bytes(alt(TerminalKeyCode::Char('x')), modes()), b"\x1bx");
    assert_eq!(key_bytes(alt(TerminalKeyCode::Esc), modes()), b"\x1b");
    assert_eq!(key_bytes(key(TerminalKeyCode::PageUp), modes()), b"\x1b[5~");
    assert_eq!(
        key_bytes(
            TerminalKey::new(TerminalKeyCode::Delete, TerminalModifiers::control()),
            modes()
        ),
        b"\x1b[3;5~"
    );
    assert_eq!(function_key(2, TerminalModifiers::none()), b"\x1bOQ");
    assert_eq!(function_key(2, TerminalModifiers::control()), b"\x1b[12;5~");
    assert_eq!(function_key(9, TerminalModifiers::none()), b"\x1b[20~");
    assert!(function_key(13, TerminalModifiers::none()).is_empty());
    assert_eq!(control_byte(' '), 0);
    assert_eq!(control_byte('@'), 0);
    assert_eq!(control_byte('?'), 0x7f);
    assert_eq!(control_byte('z'), 26);
}

#[test]
fn the_standalone_terminal_reports_what_was_asked_for() {
    let down = mouse(TerminalMouseKind::Down(TerminalButton::Right), 4, 5);
    let clicks = TerminalModes {
        mouse_reports: true,
        ..modes()
    };
    let sgr = TerminalModes {
        sgr_mouse: true,
        ..clicks
    };
    assert!(mouse_bytes(down, modes()).is_empty());
    assert_eq!(mouse_bytes(down, sgr), b"\x1b[<2;5;6M");
    assert_eq!(
        mouse_bytes(down, clicks),
        vec![0x1b, b'[', b'M', 34, 37, 38]
    );
    assert!(mouse_bytes(mouse(TerminalMouseKind::Drag(LEFT), 4, 5), clicks).is_empty());
    assert_eq!(
        mouse_bytes(
            TerminalMouse {
                modifiers: TerminalModifiers::control(),
                ..mouse(TerminalMouseKind::Up(LEFT), 4, 5)
            },
            sgr
        ),
        b"\x1b[<19;5;6m"
    );
    assert!(mouse_bytes(mouse(TerminalMouseKind::ScrollUp, 223, 0), clicks).is_empty());
    let focus = TerminalModes {
        focus_reports: true,
        ..modes()
    };
    assert_eq!(
        react(StandaloneEvent::FocusGained, focus),
        StandaloneAction::Send(b"\x1b[I".to_vec())
    );
    assert_eq!(
        react(StandaloneEvent::FocusLost, modes()),
        StandaloneAction::Ignore
    );
    assert_eq!(
        react(StandaloneEvent::Key(ctrl('g')), modes()),
        StandaloneAction::Quit
    );
    assert_eq!(
        react(StandaloneEvent::Key(ctrl('h')), modes()),
        StandaloneAction::ToggleHidden
    );
    assert_eq!(
        react(
            StandaloneEvent::Key(TerminalKey {
                kind: TerminalKeyKind::Release,
                ..ctrl('g')
            }),
            modes()
        ),
        StandaloneAction::Ignore
    );
}

#[test]
fn the_standalone_terminal_reads_its_command_line() {
    let args = |args: &[&str]| args.iter().map(|arg| (*arg).to_owned()).collect::<Vec<_>>();
    let shell = shell_from_args(&args(&[]), None).expect("a shell");
    assert_eq!(shell.program, "/bin/sh");
    let shell = shell_from_args(&args(&[]), Some("/bin/zsh".to_owned())).expect("a shell");
    assert_eq!(shell.program, "/bin/zsh");
    let shell = shell_from_args(&args(&["--docker", "c", "sh", "-l"]), None).expect("a shell");
    assert_eq!(shell.program, "docker");
    assert_eq!(shell.args, ["exec", "-it", "c", "sh", "-l"]);
    let shell = shell_from_args(&args(&["--command", "top", "-d"]), None).expect("a program");
    assert_eq!(shell.program, "top");
    assert_eq!(shell.args, ["-d"]);
    assert_eq!(
        shell_from_args(&args(&["--btop"]), None).map(|shell| shell.program),
        Some("btop".to_owned())
    );
    assert!(shell_from_args(&args(&["--btop", "x"]), None).is_none());
    assert!(shell_from_args(&args(&["--docker"]), None).is_none());
}

#[test]
fn the_standalone_terminal_draws_flagged_cells() {
    let flags = CellFlags {
        inverse: true,
        bold: true,
        dim: false,
        italic: false,
        underlined: false,
        struck_out: false,
        hidden: false,
    };
    let cell = standalone_cell('x', &vec!['\u{301}'], flags, rgb(1, 1, 1), rgb(2, 2, 2));
    assert_eq!(cell.symbol, "x\u{301}");
    assert_eq!(cell.foreground, rgb(2, 2, 2));
    assert_eq!(cell.background, rgb(1, 1, 1));
    assert!(cell.bold && !cell.dim);
    let hidden = CellFlags {
        hidden: true,
        ..flags
    };
    assert_eq!(
        standalone_cell('x', &Vec::new(), hidden, rgb(1, 1, 1), rgb(2, 2, 2)).symbol,
        " "
    );
    assert_eq!(
        grid_size(0, 0),
        GridSize {
            lines: 1,
            columns: 2
        }
    );
    assert_eq!(
        grid_size(80, 24),
        GridSize {
            lines: 24,
            columns: 80
        }
    );
}

#[test]
fn logical_keys_are_presses_with_the_modifiers_that_matter() {
    let event = TerminalKey {
        code: TerminalKeyCode::Char('Q'),
        modifiers: TerminalModifiers {
            shift: true,
            ..TerminalModifiers::none()
        },
        kind: TerminalKeyKind::Press,
    };
    assert_eq!(
        tuivir::presentation::key_from_event(event),
        Some(Key::character('Q'))
    );
    assert_eq!(
        tuivir::presentation::key_from_event(TerminalKey {
            kind: TerminalKeyKind::Repeat,
            ..event
        }),
        None
    );
    assert_eq!(
        tuivir::presentation::key_from_event(key(TerminalKeyCode::F(13))),
        None
    );
}
