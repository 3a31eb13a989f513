//! Where terminal input goes while a Resource Shell Session is visible.

use vstd::prelude::*;
use vstd::string::*;

use super::encoding::{
    encoded_key, encoded_paste, encoded_pointer, paste_bytes, position_in, terminal_key_bytes,
    terminal_mouse_bytes, terminal_position,
};
use crate::application::key::{Key, KeyCode, Named};
use crate::application::resource_shell_controls::{ControlsModel, ResourceShellControls};
use crate::application::shell::ResourceShellSessionId;
use crate::presentation::geometry::Rect;
use crate::presentation::input::{
    logical_code, no_modifiers, TerminalButton, TerminalKey, TerminalKeyCode, TerminalModifiers,
    TerminalMouse, TerminalMouseKind,
};

verus! {

/// Where a key or a paste goes.
#[derive(Debug, PartialEq, Eq)]
pub enum ShellKeyRoute {
    ToPty(Vec<u8>),
    Released,
    ToggleSize,
    ToTuivir,
}

/// What a [`ShellKeyRoute`] says.
#[verifier::ext_equal]
pub enum KeyRouteModel {
    ToPty(Seq<u8>),
    Released,
    ToggleSize,
    ToTuivir,
}

impl View for ShellKeyRoute {
    type V = KeyRouteModel;

    open spec fn view(&self) -> KeyRouteModel {
        match self {
            ShellKeyRoute::ToPty(bytes) => KeyRouteModel::ToPty(bytes@),
            ShellKeyRoute::Released => KeyRouteModel::Released,
            ShellKeyRoute::ToggleSize => KeyRouteModel::ToggleSize,
            ShellKeyRoute::ToTuivir => KeyRouteModel::ToTuivir,
        }
    }
}

/// Where a pointer event goes.
#[derive(Debug, PartialEq, Eq)]
pub enum ShellPointerRoute {
    ToPty(Vec<u8>),
    Select { start: (u16, u16), end: (u16, u16) },
    Scroll { lines: i32 },
    ToTuivir,
    Nowhere,
}

/// What a [`ShellPointerRoute`] says.
#[verifier::ext_equal]
pub enum PointerRouteModel {
    ToPty(Seq<u8>),
    Select { start: (u16, u16), end: (u16, u16) },
    Scroll { lines: int },
    ToTuivir,
    Nowhere,
}

impl View for ShellPointerRoute {
    type V = PointerRouteModel;

    open spec fn view(&self) -> PointerRouteModel {
        match self {
            ShellPointerRoute::ToPty(bytes) => PointerRouteModel::ToPty(bytes@),
            ShellPointerRoute::Select { start, end } => PointerRouteModel::Select {
                start: *start,
                end: *end,
            },
            ShellPointerRoute::Scroll { lines } => PointerRouteModel::Scroll {
                lines: *lines as int,
            },
            ShellPointerRoute::ToTuivir => PointerRouteModel::ToTuivir,
            ShellPointerRoute::Nowhere => PointerRouteModel::Nowhere,
        }
    }
}

/// How far a text selection with the pointer has come.
#[derive(Clone, Copy, Debug, PartialEq, Eq)]
pub enum ShellSelectionGesture {
    Idle,
    Pressed { session_id: ResourceShellSessionId, start: (u16, u16) },
    Dragging { session_id: ResourceShellSessionId, start: (u16, u16) },
}

/// Host-local keyboard focus for the currently visible PTY. The Shell Prefix
/// and then a focus key release it, returning ordinary keys to Tuivir without
/// ever sending the prefix or release gesture to the provider process.
#[derive(Debug)]
pub struct ShellInputRouter {
    pub controls: ResourceShellControls,
    pub active_session: Option<ResourceShellSessionId>,
    pub focused: bool,
    pub prefix_pending: bool,
    pub selection_gesture: ShellSelectionGesture,
}

/// What a [`ShellInputRouter`] remembers.
#[verifier::ext_equal]
pub struct RouterModel {
    pub controls: ControlsModel,
    pub active_session: Option<ResourceShellSessionId>,
    pub focused: bool,
    pub prefix_pending: bool,
    pub selection_gesture: ShellSelectionGesture,
}

impl View for ShellInputRouter {
    type V = RouterModel;

    open spec fn view(&self) -> RouterModel {
        RouterModel {
            controls: self.controls@,
            active_session: self.active_session,
            focused: self.focused,
            prefix_pending: self.prefix_pending,
            selection_gesture: self.selection_gesture,
        }
    }
}

/// The controls of a router that nothing configured: `ctrl+b`, then `q` to
/// release the keyboard and `z` to change the size.
pub open spec fn unconfigured_controls() -> ControlsModel {
    ControlsModel {
        prefix: Key { code: KeyCode::Character('b'), ctrl: true, alt: false },
        focus_tuivir: seq![Key { code: KeyCode::Character('q'), ctrl: false, alt: false }],
        toggle_zoom: seq![Key { code: KeyCode::Character('z'), ctrl: false, alt: false }],
    }
}

/// A router before any session received input.
pub open spec fn idle_router(controls: ControlsModel) -> RouterModel {
    RouterModel {
        controls,
        active_session: None,
        focused: false,
        prefix_pending: false,
        selection_gesture: ShellSelectionGesture::Idle,
    }
}

/// Whether a terminal may report shift for a key that is named without it: a
/// capital, a symbol, or the backward tab.
pub open spec fn may_carry_shift(code: KeyCode) -> bool {
    match code {
        KeyCode::Character(character) => !('a' <= character <= 'z'),
        KeyCode::Named(named) => named == Named::BackTab,
    }
}

/// Whether a terminal key is exactly a control's key.
pub open spec fn is_control(key: Key, event: TerminalKey) -> bool {
    &&& logical_code(event.code) == Some(key.code)
    &&& event.modifiers.control == key.ctrl
    &&& event.modifiers.alt == key.alt
    &&& !event.modifiers.other
    &&& (!event.modifiers.shift || may_carry_shift(key.code))
}

/// Whether a terminal key is one of a control's keys.
pub open spec fn is_any_control(keys: Seq<Key>, event: TerminalKey) -> bool {
    exists|i: int| 0 <= i < keys.len() && is_control(#[trigger] keys[i], event)
}

/// The key that a terminal reports for a logical key.
pub open spec fn terminal_code(code: KeyCode) -> TerminalKeyCode {
    match code {
        KeyCode::Character(character) => TerminalKeyCode::Char(character),
        KeyCode::Named(Named::Backspace) => TerminalKeyCode::Backspace,
        KeyCode::Named(Named::Enter) => TerminalKeyCode::Enter,
        KeyCode::Named(Named::Esc) => TerminalKeyCode::Esc,
        KeyCode::Named(Named::Tab) => TerminalKeyCode::Tab,
        KeyCode::Named(Named::Left) => TerminalKeyCode::Left,
        KeyCode::Named(Named::Right) => TerminalKeyCode::Right,
        KeyCode::Named(Named::Up) => TerminalKeyCode::Up,
        KeyCode::Named(Named::Down) => TerminalKeyCode::Down,
        KeyCode::Named(Named::Home) => TerminalKeyCode::Home,
        KeyCode::Named(Named::End) => TerminalKeyCode::End,
        KeyCode::Named(Named::PageUp) => TerminalKeyCode::PageUp,
        KeyCode::Named(Named::PageDown) => TerminalKeyCode::PageDown,
        KeyCode::Named(Named::Insert) => TerminalKeyCode::Insert,
        KeyCode::Named(Named::Delete) => TerminalKeyCode::Delete,
        KeyCode::Named(Named::BackTab) => TerminalKeyCode::BackTab,
        KeyCode::Named(Named::Function(number)) => TerminalKeyCode::F(number),
    }
}

/// The bytes of a logical key.
pub open spec fn key_bytes_of(key: Key) -> Option<Seq<u8>> {
    encoded_key(terminal_code(key.code), key.ctrl)
}

/// A key's bytes go to the PTY; a key without bytes stays with Tuivir.
pub open spec fn delivered(bytes: Option<Seq<u8>>) -> KeyRouteModel {
    match bytes {
        Some(bytes) => KeyRouteModel::ToPty(bytes),
        None => KeyRouteModel::ToTuivir,
    }
}

/// The bytes of a prefix that turned out to be for the program, with those of
/// the key after it.
pub open spec fn after_prefix(prefix: Option<Seq<u8>>, bytes: Option<Seq<u8>>) -> Option<Seq<u8>> {
    match (prefix, bytes) {
        (Some(prefix), Some(bytes)) => Some(prefix + bytes),
        (None, Some(bytes)) => Some(bytes),
        (_, None) => None,
    }
}

impl RouterModel {
    /// The router once a session is the one that receives input. A session
    /// that was not the last one starts out focused or not, without a prefix.
    pub open spec fn attending(
        self,
        session_id: ResourceShellSessionId,
        focused: bool,
    ) -> RouterModel {
        if self.active_session == Some(session_id) {
            self
        } else {
            RouterModel {
                active_session: Some(session_id),
                focused,
                prefix_pending: false,
                ..self
            }
        }
    }

    /// Where a key goes while a PTY can receive input.
    pub open spec fn key_routed(self, session_id: ResourceShellSessionId, key: TerminalKey) -> (
        RouterModel,
        KeyRouteModel,
    ) {
        let router = self.attending(session_id, true);
        let settled = RouterModel { prefix_pending: false, ..router };
        let bytes = encoded_key(key.code, key.modifiers.control);
        if router.prefix_pending {
            if is_any_control(self.controls.focus_tuivir, key) {
                (RouterModel { focused: false, ..settled }, KeyRouteModel::Released)
            } else if is_any_control(self.controls.toggle_zoom, key) {
                (settled, KeyRouteModel::ToggleSize)
            } else if is_control(self.controls.prefix, key) {
                (settled, delivered(key_bytes_of(self.controls.prefix)))
            } else {
                (settled, delivered(after_prefix(key_bytes_of(self.controls.prefix), bytes)))
            }
        } else if !router.focused {
            if key.code == TerminalKeyCode::Enter && key.modifiers == no_modifiers() {
                (RouterModel { focused: true, ..router }, KeyRouteModel::ToPty(seq![0x0du8]))
            } else {
                (router, KeyRouteModel::ToTuivir)
            }
        } else if is_control(self.controls.prefix, key) {
            (RouterModel { prefix_pending: true, ..router }, KeyRouteModel::ToTuivir)
        } else {
            (router, delivered(bytes))
        }
    }

    /// Where a key goes while no live PTY can receive input.
    pub open spec fn key_routed_without_terminal(
        self,
        session_id: ResourceShellSessionId,
        key: TerminalKey,
    ) -> (RouterModel, KeyRouteModel) {
        let router = self.attending(session_id, false);
        let settled = RouterModel { prefix_pending: false, ..router };
        if router.prefix_pending {
            if is_any_control(self.controls.focus_tuivir, key) {
                (settled, KeyRouteModel::Released)
            } else if is_any_control(self.controls.toggle_zoom, key) {
                (settled, KeyRouteModel::ToggleSize)
            } else {
                (settled, KeyRouteModel::ToTuivir)
            }
        } else if is_control(self.controls.prefix, key) {
            (RouterModel { prefix_pending: true, ..router }, KeyRouteModel::ToTuivir)
        } else {
            (router, KeyRouteModel::ToTuivir)
        }
    }

    /// Where a paste goes.
    pub open spec fn paste_routed(
        self,
        session_id: ResourceShellSessionId,
        text: Seq<char>,
        bracketed: bool,
    ) -> (RouterModel, KeyRouteModel) {
        let router = self.attending(session_id, true);
        if router.focused {
            (router, KeyRouteModel::ToPty(encoded_paste(text, bracketed)))
        } else {
            (router, KeyRouteModel::ToTuivir)
        }
    }

    /// Where the press began that a session's selection grows from.
    pub open spec fn selection_start(self, session_id: ResourceShellSessionId) -> Option<
        (u16, u16),
    > {
        match self.selection_gesture {
            ShellSelectionGesture::Pressed { session_id: selected, start } => if selected
                == session_id {
                Some(start)
            } else {
                None
            },
            ShellSelectionGesture::Dragging { session_id: selected, start } => if selected
                == session_id {
                Some(start)
            } else {
                None
            },
            ShellSelectionGesture::Idle => None,
        }
    }

    /// Where a pointer event inside the viewport goes that is not reported to
    /// the program.
    pub open spec fn pointer_kept(
        self,
        session_id: ResourceShellSessionId,
        kind: TerminalMouseKind,
        position: (u16, u16),
        reporting: bool,
    ) -> (RouterModel, PointerRouteModel) {
        if reporting {
            if kind == TerminalMouseKind::Down(TerminalButton::Left) {
                (RouterModel { focused: true, ..self }, PointerRouteModel::Nowhere)
            } else {
                (self, PointerRouteModel::Nowhere)
            }
        } else {
            match kind {
                TerminalMouseKind::Down(TerminalButton::Left) => (
                    RouterModel {
                        selection_gesture: ShellSelectionGesture::Pressed {
                            session_id,
                            start: position,
                        },
                        ..self
                    },
                    PointerRouteModel::Nowhere,
                ),
                TerminalMouseKind::Drag(TerminalButton::Left) => match self.selection_start(
                    session_id,
                ) {
                    Some(start) => (
                        RouterModel {
                            selection_gesture: ShellSelectionGesture::Dragging {
                                session_id,
                                start,
                            },
                            focused: false,
                            ..self
                        },
                        PointerRouteModel::Select { start, end: position },
                    ),
                    None => (self, PointerRouteModel::Nowhere),
                },
                TerminalMouseKind::Up(TerminalButton::Left) => (
                    RouterModel {
                        selection_gesture: ShellSelectionGesture::Idle,
                        focused: self.focused || (self.selection_gesture matches
                            ShellSelectionGesture::Pressed { session_id: id, .. } && id
                            == session_id),
                        ..self
                    },
                    PointerRouteModel::Nowhere,
                ),
                TerminalMouseKind::ScrollUp => (self, PointerRouteModel::Scroll { lines: 3 }),
                TerminalMouseKind::ScrollDown => (self, PointerRouteModel::Scroll { lines: -3 }),
                _ => (self, PointerRouteModel::Nowhere),
            }
        }
    }

    /// Where a pointer event goes.
    pub open spec fn pointer_routed(
        self,
        session_id: ResourceShellSessionId,
        event: TerminalMouse,
        viewport: Rect,
        reporting: bool,
        sgr: bool,
    ) -> (RouterModel, PointerRouteModel) {
        match position_in(viewport, event.column, event.row) {
            None => (
                RouterModel {
                    focused: false,
                    prefix_pending: false,
                    selection_gesture: ShellSelectionGesture::Idle,
                    ..self
                },
                PointerRouteModel::ToTuivir,
            ),
            Some(position) => {
                let router = self.attending(session_id, false);
                if reporting && router.focused {
                    match encoded_pointer(event.kind, position, sgr) {
                        Some(bytes) => (router, PointerRouteModel::ToPty(bytes)),
                        None => (router, PointerRouteModel::Nowhere),
                    }
                } else {
                    router.pointer_kept(session_id, event.kind, position, reporting)
                }
            },
        }
    }
}

fn terminal_code_of(code: KeyCode) -> (terminal: TerminalKeyCode)
    ensures
        terminal == terminal_code(code),
{
    match code {
        KeyCode::Character(character) => TerminalKeyCode::Char(character),
        KeyCode::Named(named) => match named {
            Named::Backspace => TerminalKeyCode::Backspace,
            Named::Enter => TerminalKeyCode::Enter,
            Named::Esc => TerminalKeyCode::Esc,
            Named::Tab => TerminalKeyCode::Tab,
            Named::Left => TerminalKeyCode::Left,
            Named::Right => TerminalKeyCode::Right,
            Named::Up => TerminalKeyCode::Up,
            Named::Down => TerminalKeyCode::Down,
            Named::Home => TerminalKeyCode::Home,
            Named::End => TerminalKeyCode::End,
            Named::PageUp => TerminalKeyCode::PageUp,
            Named::PageDown => TerminalKeyCode::PageDown,
            Named::Insert => TerminalKeyCode::Insert,
            Named::Delete => TerminalKeyCode::Delete,
            Named::BackTab => TerminalKeyCode::BackTab,
            Named::Function(number) => TerminalKeyCode::F(number),
        },
    }
}

fn matches_control(key: Key, event: TerminalKey) -> (same: bool)
    ensures
        same == is_control(key, event),
{
    let code = terminal_code_of(key.code);
    let numbered = match code {
        TerminalKeyCode::F(number) => 1 <= number && number <= 12,
        _ => true,
    };
    let shift_allowed = match key.code {
        KeyCode::Character(character) => !('a' <= character && character <= 'z'),
        KeyCode::Named(named) => named == Named::BackTab,
    };
    numbered && event.code == code && event.modifiers.control == key.ctrl && event.modifiers.alt
        == key.alt && !event.modifiers.other && (!event.modifiers.shift || shift_allowed)
}

fn matches_any_control(keys: &Vec<Key>, event: TerminalKey) -> (same: bool)
    ensures
        same == is_any_control(keys@, event),
{
    let mut i: usize = 0;
    while i < keys.len()
        invariant
            i <= keys.len(),
            forall|j: int| 0 <= j < i ==> !is_control(#[trigger] keys@[j], event),
        decreases keys.len() - i,
    {
        if matches_control(keys[i], event) {
            return true;
        }
        i = i + 1;
    }
    false
}

fn deliver(bytes: Option<Vec<u8>>) -> (route: ShellKeyRoute)
    ensures
        route@ == delivered(match bytes {
            Some(bytes) => Some(bytes@),
            None => None,
        }),
{
    match bytes {
        Some(bytes) => ShellKeyRoute::ToPty(bytes),
        None => ShellKeyRoute::ToTuivir,
    }
}

impl Default for ShellInputRouter {
    fn default() -> (router: Self)
        ensures
            router@ == idle_router(unconfigured_controls()),
    {
        let mut focus_tuivir: Vec<Key> = Vec::new();
        focus_tuivir.push(Key::character('q'));
        let mut toggle_zoom: Vec<Key> = Vec::new();
        toggle_zoom.push(Key::character('z'));
        let prefix = Key::character('b').with_ctrl();
        let controls = ResourceShellControls::new(prefix, focus_tuivir, toggle_zoom);
        assert(controls@ =~= unconfigured_controls());
        ShellInputRouter::with_controls(controls)
    }
}

impl ShellInputRouter {
    /// A router with configured controls.
    pub fn with_controls(controls: ResourceShellControls) -> (router: Self)
        ensures
            router@ == idle_router(controls@),
    {
        ShellInputRouter {
            controls,
            active_session: None,
            focused: false,
            prefix_pending: false,
            selection_gesture: ShellSelectionGesture::Idle,
        }
    }

    fn attend(&mut self, session_id: ResourceShellSessionId, focused: bool)
        ensures
            final(self)@ == old(self)@.attending(session_id, focused),
    {
        let known = match self.active_session {
            Some(active) => active == session_id,
            None => false,
        };
        if !known {
            self.active_session = Some(session_id);
            self.focused = focused;
            self.prefix_pending = false;
        }
    }

    /// The bytes of the prefix, for a program that it turns out to be meant
    /// for.
    fn prefix_bytes(&self) -> (bytes: Option<Vec<u8>>)
        ensures
            bytes is Some <==> key_bytes_of(self@.controls.prefix) is Some,
            bytes matches Some(bytes) ==> Some(bytes@) == key_bytes_of(self@.controls.prefix),
    {
        let prefix = self.controls.prefix();
        terminal_key_bytes(terminal_code_of(prefix.code), prefix.ctrl)
    }

    /// Routes the key after the prefix.
    fn route_prefixed(&mut self, key: TerminalKey) -> (route: ShellKeyRoute)
        requires
            old(self)@.prefix_pending,
            old(self)@.active_session is Some,
        ensures
            (final(self)@, route@) == old(self)@.key_routed(old(self)@.active_session->0, key),
    {
        self.prefix_pending = false;
        if matches_any_control(self.controls.focus_tuivir(), key) {
            self.focused = false;
            return ShellKeyRoute::Released;
        }
        if matches_any_control(self.controls.toggle_zoom(), key) {
            return ShellKeyRoute::ToggleSize;
        }
        let prefix = self.prefix_bytes();
        if matches_control(self.controls.prefix(), key) {
            return deliver(prefix);
        }
        match terminal_key_bytes(key.code, key.modifiers.control) {
            Some(bytes) => {
                let mut bytes = bytes;
                match prefix {
                    Some(prefix) => {
                        let mut all = prefix;
                        all.append(&mut bytes);
                        ShellKeyRoute::ToPty(all)
                    },
                    None => ShellKeyRoute::ToPty(bytes),
                }
            },
            None => ShellKeyRoute::ToTuivir,
        }
    }

    /// Routes a key while a PTY can receive input.
    pub fn route(&mut self, session_id: ResourceShellSessionId, key: TerminalKey) -> (route:
        ShellKeyRoute)
        ensures
            (final(self)@, route@) == old(self)@.key_routed(session_id, key),
    {
        self.attend(session_id, true);
        if self.prefix_pending {
            return self.route_prefixed(key);
        }
        if !self.focused {
            if key.code == TerminalKeyCode::Enter && key.modifiers == TerminalModifiers::none() {
                self.focused = true;
                let mut bytes: Vec<u8> = Vec::new();
                bytes.push(0x0d);
                assert(bytes@ =~= seq![0x0du8]);
                return ShellKeyRoute::ToPty(bytes);
            }
            return ShellKeyRoute::ToTuivir;
        }
        if matches_control(self.controls.prefix(), key) {
            self.prefix_pending = true;
            return ShellKeyRoute::ToTuivir;
        }
        deliver(terminal_key_bytes(key.code, key.modifiers.control))
    }

    /// Reserves only Tuivir's terminal-prefix controls while no live PTY can
    /// receive input. This keeps the enlarged exit and start-failure screens
    /// escapable without pretending their sessions can accept ordinary keys.
    pub fn route_without_terminal(
        &mut self,
        session_id: ResourceShellSessionId,
        key: TerminalKey,
    ) -> (route: ShellKeyRoute)
        ensures
            (final(self)@, route@) == old(self)@.key_routed_without_terminal(session_id, key),
    {
        self.attend(session_id, false);
        if self.prefix_pending {
            self.prefix_pending = false;
            if matches_any_control(self.controls.focus_tuivir(), key) {
                return ShellKeyRoute::Released;
            }
            if matches_any_control(self.controls.toggle_zoom(), key) {
                return ShellKeyRoute::ToggleSize;
            }
            return ShellKeyRoute::ToTuivir;
        }
        if matches_control(self.controls.prefix(), key) {
            self.prefix_pending = true;
        }
        ShellKeyRoute::ToTuivir
    }

    /// Routes a paste while a PTY can receive input.
    pub fn route_paste(
        &mut self,
        session_id: ResourceShellSessionId,
        text: &str,
        bracketed_paste: bool,
    ) -> (route: ShellKeyRoute)
        ensures
            (final(self)@, route@) == old(self)@.paste_routed(session_id, text@, bracketed_paste),
    {
        self.attend(session_id, true);
        if !self.focused {
            return ShellKeyRoute::ToTuivir;
        }
        ShellKeyRoute::ToPty(paste_bytes(text, bracketed_paste))
    }

    fn start_of_selection(&self, session_id: ResourceShellSessionId) -> (start: Option<(u16, u16)>)
        ensures
            start == self@.selection_start(session_id),
    {
        match self.selection_gesture {
            ShellSelectionGesture::Pressed { session_id: selected, start } => if selected
                == session_id {
                Some(start)
            } else {
                None
            },
            ShellSelectionGesture::Dragging { session_id: selected, start } => if selected
                == session_id {
                Some(start)
            } else {
                None
            },
            ShellSelectionGesture::Idle => None,
        }
    }

    fn keep_pointer(
        &mut self,
        session_id: ResourceShellSessionId,
        kind: TerminalMouseKind,
        position: (u16, u16),
        mouse_reporting: bool,
    ) -> (route: ShellPointerRoute)
        ensures
            (final(self)@, route@) == old(self)@.pointer_kept(
                session_id,
                kind,
                position,
                mouse_reporting,
            ),
    {
        if mouse_reporting {
            if kind == TerminalMouseKind::Down(TerminalButton::Left) {
                self.focused = true;
            }
            return ShellPointerRoute::Nowhere;
        }
        match kind {
            TerminalMouseKind::Down(TerminalButton::Left) => {
                self.selection_gesture = ShellSelectionGesture::Pressed {
                    session_id,
                    start: position,
                };
                ShellPointerRoute::Nowhere
            },
            TerminalMouseKind::Drag(TerminalButton::Left) => {
                match self.start_of_selection(session_id) {
                    Some(start) => {
                        self.selection_gesture = ShellSelectionGesture::Dragging {
                            session_id,
                            start,
                        };
                        self.focused = false;
                        ShellPointerRoute::Select { start, end: position }
                    },
                    None => ShellPointerRoute::Nowhere,
                }
            },
            TerminalMouseKind::Up(TerminalButton::Left) => {
                let clicked = match self.selection_gesture {
                    ShellSelectionGesture::Pressed { session_id: id, .. } => id == session_id,
                    _ => false,
                };
                self.selection_gesture = ShellSelectionGesture::Idle;
                if clicked {
                    self.focused = true;
                }
                ShellPointerRoute::Nowhere
            },
            TerminalMouseKind::ScrollUp => ShellPointerRoute::Scroll { lines: 3 },
            TerminalMouseKind::ScrollDown => ShellPointerRoute::Scroll { lines: -3 },
            _ => ShellPointerRoute::Nowhere,
        }
    }

    /// Routes a pointer event while a PTY is visible in a viewport.
    pub fn route_mouse(
        &mut self,
        session_id: ResourceShellSessionId,
        event: TerminalMouse,
        viewport: Rect,
        mouse_reporting: bool,
        sgr_mouse: bool,
    ) -> (route: ShellPointerRoute)
        ensures
            (final(self)@, route@) == old(self)@.pointer_routed(
                session_id,
                event,
                viewport,
                mouse_reporting,
                sgr_mouse,
            ),
    {
        let position = match terminal_position(viewport, event) {
            Some(position) => position,
            None => {
                self.focused = false;
                self.prefix_pending = false;
                self.selection_gesture = ShellSelectionGesture::Idle;
                return ShellPointerRoute::ToTuivir;
            },
        };
        self.attend(session_id, false);
        if mouse_reporting && self.focused {
            return match terminal_mouse_bytes(event.kind, position, sgr_mouse) {
                Some(bytes) => ShellPointerRoute::ToPty(bytes),
                None => ShellPointerRoute::Nowhere,
            };
        }
        self.keep_pointer(session_id, event.kind, position, mouse_reporting)
    }
}

/// Whether the prefix is no key of another control. Configured controls always
/// are: a control that the prefix would hide is refused.
pub open spec fn prefix_is_apart(controls: ControlsModel) -> bool {
    !controls.focus_tuivir.contains(controls.prefix) && !controls.toggle_zoom.contains(
        controls.prefix,
    )
}

/// A terminal key is at most one logical key.
proof fn lemma_one_control(first: Key, second: Key, event: TerminalKey)
    requires
        is_control(first, event),
        is_control(second, event),
    ensures
        first == second,
{
}

/// The prefix by itself reaches no program: Tuivir holds it until the key
/// after it is known.
pub proof fn law_the_prefix_waits_for_its_key(
    router: RouterModel,
    session_id: ResourceShellSessionId,
    key: TerminalKey,
)
    requires
        is_control(router.controls.prefix, key),
        router.attending(session_id, true).focused,
        !router.attending(session_id, true).prefix_pending,
    ensures
        router.key_routed(session_id, key).1 == KeyRouteModel::ToTuivir,
        router.key_routed(session_id, key).0 == (RouterModel {
            prefix_pending: true,
            ..router.attending(session_id, true)
        }),
{
}

/// The prefix pressed twice sends one literal prefix to the program.
pub proof fn law_a_doubled_prefix_is_one_literal_prefix(
    router: RouterModel,
    session_id: ResourceShellSessionId,
    key: TerminalKey,
)
    requires
        is_control(router.controls.prefix, key),
        prefix_is_apart(router.controls),
        key_bytes_of(router.controls.prefix) is Some,
        router.attending(session_id, true).focused,
        !router.attending(session_id, true).prefix_pending,
    ensures
        router.key_routed(session_id, key).0.key_routed(session_id, key) == (
            router.attending(session_id, true),
            KeyRouteModel::ToPty(key_bytes_of(router.controls.prefix)->0),
        ),
{
    let controls = router.controls;
    assert(!is_any_control(controls.focus_tuivir, key)) by {
        if is_any_control(controls.focus_tuivir, key) {
            let i = choose|i: int|
                0 <= i < controls.focus_tuivir.len() && is_control(
                    #[trigger] controls.focus_tuivir[i],
                    key,
                );
            lemma_one_control(controls.prefix, controls.focus_tuivir[i], key);
        }
    }
    assert(!is_any_control(controls.toggle_zoom, key)) by {
        if is_any_control(controls.toggle_zoom, key) {
            let i = choose|i: int|
                0 <= i < controls.toggle_zoom.len() && is_control(
                    #[trigger] controls.toggle_zoom[i],
                    key,
                );
            lemma_one_control(controls.prefix, controls.toggle_zoom[i], key);
        }
    }
}

/// A key after the prefix that is no control reaches the program behind the
/// prefix: nothing that was typed is lost.
pub proof fn law_an_unrecognised_key_brings_the_prefix_along(
    router: RouterModel,
    session_id: ResourceShellSessionId,
    key: TerminalKey,
)
    requires
        router.active_session == Some(session_id),
        router.prefix_pending,
        !is_any_control(router.controls.focus_tuivir, key),
        !is_any_control(router.controls.toggle_zoom, key),
        !is_control(router.controls.prefix, key),
        key_bytes_of(router.controls.prefix) is Some,
        encoded_key(key.code, key.modifiers.control) is Some,
    ensures
        router.key_routed(session_id, key).1 == KeyRouteModel::ToPty(
            key_bytes_of(router.controls.prefix)->0 + encoded_key(
                key.code,
                key.modifiers.control,
            )->0,
        ),
{
}

/// Once the keyboard is released, no key reaches the program but the Enter that
/// takes it back.
pub proof fn law_a_released_keyboard_stays_with_tuivir(
    router: RouterModel,
    session_id: ResourceShellSessionId,
    release: TerminalKey,
    key: TerminalKey,
)
    requires
        router.active_session == Some(session_id),
        router.key_routed(session_id, release).1 == KeyRouteModel::Released,
    ensures
        ({
            let released = router.key_routed(session_id, release).0;
            if key.code == TerminalKeyCode::Enter && key.modifiers == no_modifiers() {
                released.key_routed(session_id, key) == (
                    RouterModel { focused: true, ..released },
                    KeyRouteModel::ToPty(seq![0x0du8]),
                )
            } else {
                released.key_routed(session_id, key) == (released, KeyRouteModel::ToTuivir)
            }
        }),
{
}

/// While a program has the keyboard, every key with an encoding reaches it,
/// Escape and the emergency Quit's key among them; only the prefix does not.
pub proof fn law_a_focused_program_receives_every_key(
    router: RouterModel,
    session_id: ResourceShellSessionId,
    key: TerminalKey,
)
    requires
        router.attending(session_id, true).focused,
        !router.attending(session_id, true).prefix_pending,
        !is_control(router.controls.prefix, key),
    ensures
        router.key_routed(session_id, key).1 == delivered(
            encoded_key(key.code, key.modifiers.control),
        ),
{
}

/// Without a live PTY no key is written anywhere, and the controls after the
/// prefix still work.
pub proof fn law_nothing_is_written_without_a_terminal(
    router: RouterModel,
    session_id: ResourceShellSessionId,
    key: TerminalKey,
)
    ensures
        !(router.key_routed_without_terminal(session_id, key).1 is ToPty),
        router.active_session == Some(session_id) && router.prefix_pending && is_any_control(
            router.controls.focus_tuivir,
            key,
        ) ==> router.key_routed_without_terminal(session_id, key).1 == KeyRouteModel::Released,
{
}

/// A program that asked for no pointer reports is sent none.
pub proof fn law_no_pointer_reports_unasked(
    router: RouterModel,
    session_id: ResourceShellSessionId,
    event: TerminalMouse,
    viewport: Rect,
    sgr: bool,
)
    ensures
        !(router.pointer_routed(session_id, event, viewport, false, sgr).1 is ToPty),
{
}

/// A press and then a drag inside the viewport select the text between them
/// and take the keyboard from the program.
pub proof fn law_a_drag_selects_from_its_press(
    router: RouterModel,
    session_id: ResourceShellSessionId,
    press: TerminalMouse,
    drag: TerminalMouse,
    viewport: Rect,
    sgr: bool,
)
    requires
        press.kind == TerminalMouseKind::Down(TerminalButton::Left),
        drag.kind == TerminalMouseKind::Drag(TerminalButton::Left),
        position_in(viewport, press.column, press.row) is Some,
        position_in(viewport, drag.column, drag.row) is Some,
    ensures
        ({
            let pressed = router.pointer_routed(session_id, press, viewport, false, sgr).0;
            let (dragged, route) = pressed.pointer_routed(session_id, drag, viewport, false, sgr);
            &&& route == (PointerRouteModel::Select {
                start: position_in(viewport, press.column, press.row)->0,
                end: position_in(viewport, drag.column, drag.row)->0,
            })
            &&& !dragged.focused
        }),
{
}

/// A click inside the viewport gives the program the keyboard.
pub proof fn law_a_click_focuses_the_program(
    router: RouterModel,
    session_id: ResourceShellSessionId,
    press: TerminalMouse,
    release: TerminalMouse,
    viewport: Rect,
    sgr: bool,
)
    requires
        press.kind == TerminalMouseKind::Down(TerminalButton::Left),
        release.kind == TerminalMouseKind::Up(TerminalButton::Left),
        position_in(viewport, press.column, press.row) is Some,
        position_in(viewport, release.column, release.row) is Some,
    ensures
        ({
            let pressed = router.pointer_routed(session_id, press, viewport, false, sgr).0;
            let released = pressed.pointer_routed(session_id, release, viewport, false, sgr).0;
            &&& released.focused
            &&& released.selection_gesture == ShellSelectionGesture::Idle
        }),
{
}

/// A pointer event outside the viewport is Tuivir's, and gives it the keyboard
/// back.
pub proof fn law_pointing_elsewhere_returns_the_keyboard(
    router: RouterModel,
    session_id: ResourceShellSessionId,
    event: TerminalMouse,
    viewport: Rect,
    reporting: bool,
    sgr: bool,
)
    requires
        position_in(viewport, event.column, event.row) is None,
    ensures
        router.pointer_routed(session_id, event, viewport, reporting, sgr).1
            == PointerRouteModel::ToTuivir,
        !router.pointer_routed(session_id, event, viewport, reporting, sgr).0.focused,
{
}

} // verus!
