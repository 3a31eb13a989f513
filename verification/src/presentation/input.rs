//! Terminal input in the application's own vocabulary.

use vstd::prelude::*;

use crate::application::key::{Key, KeyCode, Named};

verus! {

/// What a terminal says happened to a key.
#[derive(Clone, Copy, Debug, PartialEq, Eq, Structural)]
pub enum TerminalKeyKind {
    Press,
    Repeat,
    Release,
}

/// A key as a terminal names it.
#[derive(Clone, Copy, Debug, PartialEq, Eq, Structural)]
pub enum TerminalKeyCode {
    Char(char),
    Backspace,
    Enter,
    Esc,
    Tab,
    BackTab,
    Left,
    Right,
    Up,
    Down,
    Home,
    End,
    PageUp,
    PageDown,
    Insert,
    Delete,
    F(u8),
    /// Any key the application has no name for.
    Other,
}

/// The modifiers that a terminal reports with a key or a pointer event.
#[derive(Clone, Copy, Debug, PartialEq, Eq, Structural)]
pub struct TerminalModifiers {
    pub shift: bool,
    pub control: bool,
    pub alt: bool,
    /// Any modifier beyond the three, such as super or meta.
    pub other: bool,
}

/// No modifier at all.
pub open spec fn no_modifiers() -> TerminalModifiers {
    TerminalModifiers { shift: false, control: false, alt: false, other: false }
}

/// Control, and nothing but control.
pub open spec fn control_alone() -> TerminalModifiers {
    TerminalModifiers { shift: false, control: true, alt: false, other: false }
}

impl TerminalModifiers {
    pub fn none() -> (modifiers: Self)
        ensures
            modifiers == no_modifiers(),
    {
        TerminalModifiers { shift: false, control: false, alt: false, other: false }
    }

    pub fn control() -> (modifiers: Self)
        ensures
            modifiers == control_alone(),
    {
        TerminalModifiers { shift: false, control: true, alt: false, other: false }
    }
}

/// One key event of a terminal.
#[derive(Clone, Copy, Debug, PartialEq, Eq, Structural)]
pub struct TerminalKey {
    pub code: TerminalKeyCode,
    pub modifiers: TerminalModifiers,
    pub kind: TerminalKeyKind,
}

impl TerminalKey {
    /// A press of a key.
    pub fn new(code: TerminalKeyCode, modifiers: TerminalModifiers) -> (key: Self)
        ensures
            key == (TerminalKey { code, modifiers, kind: TerminalKeyKind::Press }),
    {
        TerminalKey { code, modifiers, kind: TerminalKeyKind::Press }
    }
}

/// The logical key that a terminal key names, without its modifiers.
///
/// A shifted character already arrives as the character it produces, so the
/// shift modifier carries no further information.
pub open spec fn logical_code(code: TerminalKeyCode) -> Option<KeyCode> {
    match code {
        TerminalKeyCode::Char(character) => Some(KeyCode::Character(character)),
        TerminalKeyCode::Backspace => Some(KeyCode::Named(Named::Backspace)),
        TerminalKeyCode::Enter => Some(KeyCode::Named(Named::Enter)),
        TerminalKeyCode::Esc => Some(KeyCode::Named(Named::Esc)),
        TerminalKeyCode::Tab => Some(KeyCode::Named(Named::Tab)),
        TerminalKeyCode::BackTab => Some(KeyCode::Named(Named::BackTab)),
        TerminalKeyCode::Left => Some(KeyCode::Named(Named::Left)),
        TerminalKeyCode::Right => Some(KeyCode::Named(Named::Right)),
        TerminalKeyCode::Up => Some(KeyCode::Named(Named::Up)),
        TerminalKeyCode::Down => Some(KeyCode::Named(Named::Down)),
        TerminalKeyCode::Home => Some(KeyCode::Named(Named::Home)),
        TerminalKeyCode::End => Some(KeyCode::Named(Named::End)),
        TerminalKeyCode::PageUp => Some(KeyCode::Named(Named::PageUp)),
        TerminalKeyCode::PageDown => Some(KeyCode::Named(Named::PageDown)),
        TerminalKeyCode::Insert => Some(KeyCode::Named(Named::Insert)),
        TerminalKeyCode::Delete => Some(KeyCode::Named(Named::Delete)),
        TerminalKeyCode::F(number) => if 1 <= number <= 12 {
            Some(KeyCode::Named(Named::Function(number)))
        } else {
            None
        },
        TerminalKeyCode::Other => None,
    }
}

/// The logical key of a press, if it has one.
pub open spec fn logical_key(event: TerminalKey) -> Option<Key> {
    match logical_code(event.code) {
        Some(code) => if event.kind == TerminalKeyKind::Press {
            Some(Key { code, ctrl: event.modifiers.control, alt: event.modifiers.alt })
        } else {
            None
        },
        None => None,
    }
}

fn code_from_terminal(code: TerminalKeyCode) -> (logical: Option<KeyCode>)
    ensures
        logical == logical_code(code),
{
    let named = match code {
        TerminalKeyCode::Char(character) => return Some(KeyCode::Character(character)),
        TerminalKeyCode::Backspace => Named::Backspace,
        TerminalKeyCode::Enter => Named::Enter,
        TerminalKeyCode::Esc => Named::Esc,
        TerminalKeyCode::Tab => Named::Tab,
        TerminalKeyCode::BackTab => Named::BackTab,
        TerminalKeyCode::Left => Named::Left,
        TerminalKeyCode::Right => Named::Right,
        TerminalKeyCode::Up => Named::Up,
        TerminalKeyCode::Down => Named::Down,
        TerminalKeyCode::Home => Named::Home,
        TerminalKeyCode::End => Named::End,
        TerminalKeyCode::PageUp => Named::PageUp,
        TerminalKeyCode::PageDown => Named::PageDown,
        TerminalKeyCode::Insert => Named::Insert,
        TerminalKeyCode::Delete => Named::Delete,
        TerminalKeyCode::F(number) => if 1 <= number && number <= 12 {
            Named::Function(number)
        } else {
            return None;
        },
        TerminalKeyCode::Other => return None,
    };
    Some(KeyCode::Named(named))
}

/// Normalizes one terminal key press into the application's logical vocabulary.
///
/// Anything that is not a representable press is ignored rather than guessed.
pub fn key_from_event(event: TerminalKey) -> (key: Option<Key>)
    ensures
        key == logical_key(event),
{
    if event.kind != TerminalKeyKind::Press {
        return None;
    }
    match code_from_terminal(event.code) {
        Some(code) => Some(
            Key { code, ctrl: event.modifiers.control, alt: event.modifiers.alt },
        ),
        None => None,
    }
}

#[derive(Clone, Copy, Debug, PartialEq, Eq, Structural)]
pub enum TerminalButton {
    Left,
    Right,
    Middle,
}

/// What a terminal says happened to the pointer.
#[derive(Clone, Copy, Debug, PartialEq, Eq, Structural)]
pub enum TerminalMouseKind {
    Down(TerminalButton),
    Up(TerminalButton),
    Drag(TerminalButton),
    Moved,
    ScrollDown,
    ScrollUp,
    ScrollLeft,
    ScrollRight,
}

/// One pointer event of a terminal.
#[derive(Clone, Copy, Debug, PartialEq, Eq, Structural)]
pub struct TerminalMouse {
    pub kind: TerminalMouseKind,
    pub column: u16,
    pub row: u16,
    pub modifiers: TerminalModifiers,
}

/// What the pointer did, as far as the application cares.
#[derive(Clone, Copy, Debug, PartialEq, Eq, Structural)]
pub enum MouseAction {
    Press,
    Drag,
    Release,
    ScrollUp,
    ScrollDown,
}

#[derive(Clone, Copy, Debug, PartialEq, Eq, Structural)]
pub struct MouseInput {
    pub action: MouseAction,
    pub column: u16,
    pub row: u16,
}

/// The action of a pointer event. Motion without a button held, and every
/// button but the primary one, are ignored.
pub open spec fn pointer_action(kind: TerminalMouseKind) -> Option<MouseAction> {
    match kind {
        TerminalMouseKind::Down(TerminalButton::Left) => Some(MouseAction::Press),
        TerminalMouseKind::Drag(TerminalButton::Left) => Some(MouseAction::Drag),
        TerminalMouseKind::Up(TerminalButton::Left) => Some(MouseAction::Release),
        TerminalMouseKind::ScrollUp => Some(MouseAction::ScrollUp),
        TerminalMouseKind::ScrollDown => Some(MouseAction::ScrollDown),
        _ => None,
    }
}

/// Normalizes terminal mouse events into the small pointer vocabulary the host
/// needs for hit-testing.
pub fn mouse_from_event(event: TerminalMouse) -> (input: Option<MouseInput>)
    ensures
        input == (match pointer_action(event.kind) {
            Some(action) => Some(MouseInput { action, column: event.column, row: event.row }),
            None => None,
        }),
{
    let action = match event.kind {
        TerminalMouseKind::Down(TerminalButton::Left) => MouseAction::Press,
        TerminalMouseKind::Drag(TerminalButton::Left) => MouseAction::Drag,
        TerminalMouseKind::Up(TerminalButton::Left) => MouseAction::Release,
        TerminalMouseKind::ScrollUp => MouseAction::ScrollUp,
        TerminalMouseKind::ScrollDown => MouseAction::ScrollDown,
        _ => return None,
    };
    Some(MouseInput { action, column: event.column, row: event.row })
}

} // verus!
