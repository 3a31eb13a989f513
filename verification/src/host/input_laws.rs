//! Where keys, pastes and the pointer go, and what comes of them.

use vstd::prelude::*;
use vstd::utf8::encode_utf8;

use super::dispatch::QueueModel;
use super::event_loop::{
    key_command, key_step, mouse_command, paste_step, pointer_step, shows_output, KeyStepModel,
    PointerStepModel, ResourceShellInputModes, ShellControl,
};
use super::encoding::encoded_key;
use super::shell_input::{
    idle_router, is_any_control, is_control, key_bytes_of, terminal_code, unconfigured_controls,
    KeyRouteModel, PointerRouteModel, RouterModel, ShellSelectionGesture,
};
use crate::application::app::model::AppModel;
use crate::application::command::{resolved, Command};
use crate::application::key::{Key, KeyCode, Named};
use crate::application::resource_shell_controls::ControlsModel;
use crate::application::provider::RequestModel;
use crate::application::shell::{ResourceShellPresentation, ResourceShellSessionId, SessionModel};
use crate::presentation::geometry::Rect;
use crate::presentation::input::{
    logical_code, MouseAction, MouseInput, TerminalButton, TerminalKey, TerminalKeyCode,
    TerminalKeyKind, TerminalModifiers, TerminalMouse, TerminalMouseKind,
};
use crate::presentation::mouse_routing::routed;
use crate::presentation::screen_layout::LayoutModel;
use crate::text::decimal;

verus! {

/// A character typed with modifiers.
pub open spec fn typed(character: char, control: bool, alt: bool) -> TerminalKey {
    TerminalKey {
        code: TerminalKeyCode::Char(character),
        modifiers: TerminalModifiers { shift: false, control, alt, other: false },
        kind: TerminalKeyKind::Press,
    }
}

/// A control's key is met by that character with exactly its modifiers, and by
/// no other character and no others.
pub proof fn law_a_control_is_its_own_key(
    character: char,
    control: bool,
    alt: bool,
    other: char,
    other_control: bool,
    other_alt: bool,
)
    ensures
        is_control(
            Key { code: KeyCode::Character(character), ctrl: control, alt },
            typed(other, other_control, other_alt),
        ) <==> character == other && control == other_control && alt == other_alt,
        !is_control(
            Key { code: KeyCode::Named(Named::Enter), ctrl: control, alt },
            typed(other, other_control, other_alt),
        ),
{
}

/// Shift is overlooked where a terminal may report it for the key all the same:
/// with a capital or a symbol, but not with a small letter.
pub proof fn law_shift_is_overlooked_where_it_may_be_reported(key: Key, event: TerminalKey)
    requires
        is_control(key, event),
    ensures
        !event.modifiers.other,
        event.modifiers.control == key.ctrl,
        event.modifiers.alt == key.alt,
        key.code matches KeyCode::Character(character) && 'a' <= character <= 'z'
            ==> !event.modifiers.shift,
        key.code matches KeyCode::Character(character) && !('a' <= character <= 'z')
            ==> is_control(
            key,
            TerminalKey {
                modifiers: TerminalModifiers { shift: true, ..event.modifiers },
                ..event
            },
        ),
{
}

/// A router that holds the prefix for a session.
pub open spec fn holds_prefix(router: RouterModel, session_id: ResourceShellSessionId) -> bool {
    router.active_session == Some(session_id) && router.prefix_pending
}

/// After the prefix, a focus key gives the keyboard to Tuivir and a zoom key
/// changes the size; neither is written anywhere, with a program or without.
pub proof fn law_the_controls_follow_the_prefix(
    router: RouterModel,
    session_id: ResourceShellSessionId,
    character: char,
    i: int,
)
    requires
        holds_prefix(router, session_id),
    ensures
        ({
            let key = Key { code: KeyCode::Character(character), ctrl: false, alt: false };
            let event = typed(character, false, false);
            let focus = router.controls.focus_tuivir;
            let zoom = router.controls.toggle_zoom;
            &&& 0 <= i < focus.len() && focus[i] == key ==> {
                &&& router.key_routed(session_id, event) == (
                    RouterModel { focused: false, prefix_pending: false, ..router },
                    KeyRouteModel::Released,
                )
                &&& router.key_routed_without_terminal(session_id, event) == (
                    RouterModel { prefix_pending: false, ..router },
                    KeyRouteModel::Released,
                )
            }
            &&& 0 <= i < zoom.len() && zoom[i] == key && !focus.contains(key) ==> {
                &&& router.key_routed(session_id, event) == (
                    RouterModel { prefix_pending: false, ..router },
                    KeyRouteModel::ToggleSize,
                )
                &&& router.key_routed_without_terminal(session_id, event) == (
                    RouterModel { prefix_pending: false, ..router },
                    KeyRouteModel::ToggleSize,
                )
            }
        }),
{
    let key = Key { code: KeyCode::Character(character), ctrl: false, alt: false };
    let event = typed(character, false, false);
    let focus = router.controls.focus_tuivir;
    let zoom = router.controls.toggle_zoom;
    assert(is_control(key, event));
    if 0 <= i < focus.len() && focus[i] == key {
        assert(is_control(focus[i], event));
    }
    if 0 <= i < zoom.len() && zoom[i] == key && !focus.contains(key) {
        assert(is_control(zoom[i], event));
        if is_any_control(focus, event) {
            let j = choose|j: int| 0 <= j < focus.len() && is_control(#[trigger] focus[j], event);
            assert(focus[j] == key);
        }
    }
}

/// A session that comes to the screen has the keyboard, and no prefix of an
/// earlier one is held for it. Characters typed there reach its program.
pub proof fn law_a_new_session_has_the_keyboard(
    router: RouterModel,
    session_id: ResourceShellSessionId,
    character: char,
)
    requires
        router.active_session != Some(session_id),
        !is_control(router.controls.prefix, typed(character, false, false)),
    ensures
        router.key_routed(session_id, typed(character, false, false)) == (
            RouterModel {
                active_session: Some(session_id),
                focused: true,
                prefix_pending: false,
                ..router
            },
            KeyRouteModel::ToPty(encode_utf8(seq![character])),
        ),
{
}

/// A paste reaches the program that has the keyboard, between the marks it
/// asked for, and stays with Tuivir otherwise.
pub proof fn law_a_paste_follows_the_keyboard(
    router: RouterModel,
    session_id: ResourceShellSessionId,
    text: Seq<char>,
    bracketed: bool,
)
    requires
        router.active_session == Some(session_id),
    ensures
        router.paste_routed(session_id, text, bracketed) == (
            router,
            if !router.focused {
                KeyRouteModel::ToTuivir
            } else if bracketed {
                KeyRouteModel::ToPty(encode_utf8("\x1b[200~"@ + text + "\x1b[201~"@))
            } else {
                KeyRouteModel::ToPty(encode_utf8(text))
            },
        ),
{
}

/// Whether the pointer is inside a region, so far from its corner.
pub open spec fn points_at(event: TerminalMouse, viewport: Rect, x: u16, y: u16) -> bool {
    &&& event.column == viewport.x + x
    &&& event.row == viewport.y + y
    &&& x < viewport.width
    &&& y < viewport.height
    &&& viewport.x + viewport.width <= u16::MAX
    &&& viewport.y + viewport.height <= u16::MAX
}

/// Over a program that asked for no reports the wheel scrolls three lines back
/// or on.
pub proof fn law_the_wheel_scrolls_three_lines(
    router: RouterModel,
    session_id: ResourceShellSessionId,
    event: TerminalMouse,
    viewport: Rect,
    x: u16,
    y: u16,
    sgr: bool,
)
    requires
        points_at(event, viewport, x, y),
        router.active_session == Some(session_id),
    ensures
        event.kind == TerminalMouseKind::ScrollUp ==> router.pointer_routed(
            session_id,
            event,
            viewport,
            false,
            sgr,
        ) == (router, PointerRouteModel::Scroll { lines: 3 }),
        event.kind == TerminalMouseKind::ScrollDown ==> router.pointer_routed(
            session_id,
            event,
            viewport,
            false,
            sgr,
        ) == (router, PointerRouteModel::Scroll { lines: -3 }),
{
}

/// A program that asked for reports and has the keyboard reads where the
/// pointer is, counted from one; one without the keyboard is given it by a
/// press.
pub proof fn law_reports_follow_the_keyboard(
    router: RouterModel,
    session_id: ResourceShellSessionId,
    event: TerminalMouse,
    viewport: Rect,
    x: u16,
    y: u16,
)
    requires
        points_at(event, viewport, x, y),
        router.active_session == Some(session_id),
        event.kind == TerminalMouseKind::Down(TerminalButton::Left),
    ensures
        router.focused ==> router.pointer_routed(session_id, event, viewport, true, true) == (
            router,
            PointerRouteModel::ToPty(
                encode_utf8(
                    "\x1b[<"@ + decimal(0) + ";"@ + decimal((x + 1) as nat) + ";"@ + decimal(
                        (y + 1) as nat,
                    ) + "M"@,
                ),
            ),
        ),
        !router.focused ==> router.pointer_routed(session_id, event, viewport, true, true) == (
            RouterModel { focused: true, ..router },
            PointerRouteModel::Nowhere,
        ),
{
}

/// A selection with the pointer begins at the press, and a drag from another
/// session selects nothing here.
pub proof fn law_a_selection_stays_in_its_session(
    router: RouterModel,
    session_id: ResourceShellSessionId,
    event: TerminalMouse,
    viewport: Rect,
    x: u16,
    y: u16,
    sgr: bool,
)
    requires
        points_at(event, viewport, x, y),
        router.active_session == Some(session_id),
    ensures
        event.kind == TerminalMouseKind::Down(TerminalButton::Left) ==> router.pointer_routed(
            session_id,
            event,
            viewport,
            false,
            sgr,
        ) == (
            RouterModel {
                selection_gesture: ShellSelectionGesture::Pressed { session_id, start: (x, y) },
                ..router
            },
            PointerRouteModel::Nowhere,
        ),
        event.kind == TerminalMouseKind::Drag(TerminalButton::Left) && (
        router.selection_gesture is Idle || (router.selection_gesture matches
            ShellSelectionGesture::Pressed { session_id: selected, .. } && selected != session_id))
            ==> router.pointer_routed(session_id, event, viewport, false, sgr) == (
            router,
            PointerRouteModel::Nowhere,
        ),
{
}

/// A router starts without a session, without the keyboard and without a
/// prefix. Nothing configured, control and `b` is the prefix, `q` gives the
/// keyboard back and `z` changes the size.
pub proof fn law_a_router_starts_idle(controls: ControlsModel)
    ensures
        ({
            let idle = idle_router(controls);
            &&& idle.controls == controls
            &&& idle.active_session is None
            &&& !idle.focused
            &&& !idle.prefix_pending
            &&& idle.selection_gesture == ShellSelectionGesture::Idle
        }),
        unconfigured_controls().prefix == (Key {
            code: KeyCode::Character('b'),
            ctrl: true,
            alt: false,
        }),
        unconfigured_controls().focus_tuivir == seq![
            Key { code: KeyCode::Character('q'), ctrl: false, alt: false },
        ],
        unconfigured_controls().toggle_zoom == seq![
            Key { code: KeyCode::Character('z'), ctrl: false, alt: false },
        ],
{
}

/// A typed character is the Command that it is bound to where the focus is, and
/// control and `c` always quit.
pub proof fn law_a_key_means_its_command(app: AppModel, character: char, control: bool, alt: bool)
    ensures
        key_command(app, typed(character, control, alt)) == (if character == 'c' && control
            && !alt {
            Some(Command::Quit)
        } else {
            resolved(
                app.commands,
                app.active_scope(),
                Key { code: KeyCode::Character(character), ctrl: control, alt },
            )
        }),
        key_command(
            app,
            TerminalKey { kind: TerminalKeyKind::Release, ..typed(character, control, alt) },
        ) is None,
{
}

/// Outside a session a key does what its Command does, and ends the run exactly
/// where that asks to leave; a key without a Command does nothing.
pub proof fn law_a_key_does_what_its_command_does(
    app: AppModel,
    router: RouterModel,
    key: TerminalKey,
)
    requires
        app.state.visible_running_session() is None,
        app.state.enlarged_session() is None,
    ensures
        match key_command(app, key) {
            Some(command) => key_step(app, router, key) == (
                app.invoked(command).0,
                router,
                KeyStepModel::Settled {
                    control: if app.invoked(command).0.quit_requested {
                        ShellControl::Quit
                    } else {
                        ShellControl::Continue
                    },
                    requests: app.invoked(command).1,
                },
            ),
            None => key_step(app, router, key) == (
                app,
                router,
                KeyStepModel::Settled {
                    control: ShellControl::Continue,
                    requests: Seq::empty(),
                },
            ),
        },
{
}

/// In a session, bytes are written to it; giving the keyboard back restores an
/// enlarged session's size; the zoom key changes the size; and copying takes
/// the session's own selection first.
pub proof fn law_a_session_takes_its_keys(
    app: AppModel,
    router: RouterModel,
    key: TerminalKey,
    session: SessionModel,
)
    requires
        app.state.visible_running_session() == Some(session),
    ensures
        ({
            let (after, route) = router.key_routed(session.id, key);
            let (stepped, routed_after, step) = key_step(app, router, key);
            &&& routed_after == after
            &&& match route {
                KeyRouteModel::ToPty(bytes) => stepped == app && step == (KeyStepModel::Write {
                    session_id: session.id,
                    bytes,
                }),
                KeyRouteModel::ToggleSize => stepped == app.invoked(
                    Command::ToggleResourceShellSize,
                ).0,
                KeyRouteModel::Released => stepped == (if app.state.resource_shell_presentation
                    == ResourceShellPresentation::Enlarged {
                    app.invoked(Command::ToggleResourceShellSize).0
                } else {
                    app
                }),
                KeyRouteModel::ToTuivir => key_command(app, key) == Some(Command::CopyDetails)
                    ==> stepped == app && step == (KeyStepModel::CopySelection {
                    session_id: session.id,
                }),
            }
        }),
{
    assert(app.state.visible_session() == Some(session));
}

/// The pointer over a session's terminal does what the session makes of it: it
/// is written to, scrolled or selected in, and the application stays as it is.
pub proof fn law_a_session_takes_the_pointer(
    app: AppModel,
    router: RouterModel,
    event: TerminalMouse,
    layout: LayoutModel,
    modes: ResourceShellInputModes,
    session: SessionModel,
)
    requires
        app.state.visible_running_session() == Some(session),
        layout.resource_shell is Some,
    ensures
        ({
            let terminal = layout.resource_shell->0.terminal;
            let (after, route) = router.pointer_routed(
                session.id,
                event,
                terminal,
                modes.mouse_reporting,
                modes.sgr_mouse,
            );
            let (stepped, routed_after, step) = pointer_step(
                app,
                router,
                event,
                Some(layout),
                Some(modes),
            );
            &&& routed_after == after
            &&& match route {
                PointerRouteModel::ToPty(bytes) => stepped == app && step
                    == (PointerStepModel::Write { session_id: session.id, bytes }),
                PointerRouteModel::Select { start, end } => stepped == app && step
                    == (PointerStepModel::Select { session_id: session.id, start, end }),
                PointerRouteModel::Scroll { lines } => stepped == app && step
                    == (PointerStepModel::Scroll { session_id: session.id, lines }),
                PointerRouteModel::Nowhere => stepped == app,
                PointerRouteModel::ToTuivir => match mouse_command(app, event, Some(layout)) {
                    Some(command) => stepped == app.invoked(command).0 && step
                        == (PointerStepModel::Settled { requests: app.invoked(command).1 }),
                    None => stepped == app,
                },
            }
        }),
{
}

/// Outside a session the pointer means what the screen shows where it is, as
/// far as its left button and its wheel are concerned.
pub proof fn law_the_pointer_means_what_it_points_at(
    app: AppModel,
    router: RouterModel,
    event: TerminalMouse,
    layout: LayoutModel,
)
    ensures
        ({
            let meant = |action: MouseAction|
                routed(
                    layout,
                    MouseInput { action, column: event.column, row: event.row },
                    app.state.pane_boundary.grab,
                );
            let command = mouse_command(app, event, Some(layout));
            &&& command == (match event.kind {
                TerminalMouseKind::Down(TerminalButton::Left) => meant(MouseAction::Press),
                TerminalMouseKind::Drag(TerminalButton::Left) => meant(MouseAction::Drag),
                TerminalMouseKind::Up(TerminalButton::Left) => meant(MouseAction::Release),
                TerminalMouseKind::ScrollUp => meant(MouseAction::ScrollUp),
                TerminalMouseKind::ScrollDown => meant(MouseAction::ScrollDown),
                _ => None,
            })
            &&& app.state.visible_running_session() is None ==> (match command {
                Some(command) => pointer_step(app, router, event, Some(layout), None) == (
                    app.invoked(command).0,
                    router,
                    PointerStepModel::Settled { requests: app.invoked(command).1 },
                ),
                None => pointer_step(app, router, event, Some(layout), None) == (
                    app,
                    router,
                    PointerStepModel::Settled { requests: Seq::empty() },
                ),
            })
        }),
        mouse_command(app, event, None) is None,
{
    reveal(mouse_command);
}

/// A paste is written to the session on the screen that has the keyboard, and
/// to none where no session runs there.
pub proof fn law_a_paste_reaches_the_visible_session(
    app: AppModel,
    router: RouterModel,
    text: Seq<char>,
    session: SessionModel,
    bracketed: bool,
)
    ensures
        ({
            let modes = Some(
                ResourceShellInputModes {
                    bracketed_paste: bracketed,
                    mouse_reporting: false,
                    sgr_mouse: false,
                },
            );
            &&& app.state.visible_running_session() is None ==> paste_step(app, router, text, modes)
                == (router, None::<(ResourceShellSessionId, Seq<u8>)>)
            &&& app.state.visible_running_session() == Some(session) && router.active_session
                == Some(session.id) && router.focused ==> paste_step(app, router, text, modes) == (
                router,
                Some(
                    (
                        session.id,
                        if bracketed {
                            encode_utf8("\x1b[200~"@ + text + "\x1b[201~"@)
                        } else {
                            encode_utf8(text)
                        },
                    ),
                ),
            )
            &&& app.state.visible_running_session() == Some(session) && router.active_session
                == Some(session.id) && !router.focused ==> paste_step(app, router, text, modes) == (
                router,
                None::<(ResourceShellSessionId, Seq<u8>)>,
            )
        }),
        shows_output(app, session.id) <==> (app.state.visible_running_session() matches Some(shown)
            && shown.id == session.id),
{
}

/// Whatever waits in the queue leaves it once, when its time has come.
pub proof fn law_a_waiting_request_leaves_once(
    queue: QueueModel,
    deadline: u64,
    request: RequestModel,
    now: u64,
    later: u64,
)
    requires
        queue.pending == Some((deadline, request)),
        deadline <= now <= later,
    ensures
        queue.ready_taken(now).1 == Some(request),
        queue.ready_taken(now).0.ready_taken(later).1 is None,
        deadline > 0 ==> queue.ready_taken((deadline - 1) as u64) == (queue, None::<RequestModel>),
{
}

proof fn lemma_burst(queue: QueueModel, now: u64, requests: Seq<RequestModel>)
    requires
        now + queue.quiet_period <= u64::MAX,
    ensures
        queue.all_accepted(now, requests).0.quiet_period == queue.quiet_period,
        queue.all_accepted(now, requests).1 == requests.filter(
            |request: RequestModel| !(request is LoadResourceDetails),
        ),
        requests.len() > 0 && requests.last() is LoadResourceDetails ==> queue.all_accepted(
            now,
            requests,
        ).0.pending == Some(((now + queue.quiet_period) as u64, requests.last())),
        (forall|i: int| 0 <= i < requests.len() ==> !(#[trigger] requests[i] is LoadResourceDetails))
            ==> queue.all_accepted(now, requests).0 == queue,
    decreases requests.len(),
{
    reveal(Seq::filter);
    if requests.len() > 0 {
        let rest = requests.drop_last();
        lemma_burst(queue, now, rest);
        if forall|i: int|
            0 <= i < requests.len() ==> !(#[trigger] requests[i] is LoadResourceDetails) {
            assert forall|i: int| 0 <= i < rest.len() implies !(#[trigger] rest[i]
                is LoadResourceDetails) by {
                assert(rest[i] == requests[i]);
            }
            assert(!(requests[requests.len() - 1] is LoadResourceDetails));
        }
    } else {
        assert(requests =~= Seq::<RequestModel>::empty());
    }
}

/// Of a list of requests, all but the loads of Detail View Tabs are dispatched
/// at once and in order, and the last load waits its time.
pub proof fn law_a_list_is_dispatched_in_order(
    queue: QueueModel,
    now: u64,
    requests: Seq<RequestModel>,
)
    requires
        now + queue.quiet_period <= u64::MAX,
    ensures
        queue.all_accepted(now, requests).1 == requests.filter(
            |request: RequestModel| !(request is LoadResourceDetails),
        ),
        requests.len() > 0 && requests.last() is LoadResourceDetails ==> queue.all_accepted(
            now,
            requests,
        ).0.pending == Some(((now + queue.quiet_period) as u64, requests.last())),
        (forall|i: int| 0 <= i < requests.len() ==> !(#[trigger] requests[i] is LoadResourceDetails))
            ==> queue.all_accepted(now, requests).0 == queue,
{
    lemma_burst(queue, now, requests);
}

/// The prefix is written as the key it is: what a terminal reports for it is
/// that key again.
pub proof fn law_a_control_is_reported_as_its_key(code: KeyCode, ctrl: bool)
    requires
        code matches KeyCode::Named(Named::Function(number)) ==> 1 <= number <= 12,
    ensures
        logical_code(terminal_code(code)) == Some(code),
        key_bytes_of(Key { code, ctrl, alt: false }) == encoded_key(terminal_code(code), ctrl),
{
}

} // verus!
