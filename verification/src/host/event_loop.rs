//! What the host does about each thing that happens to it.
//!
//! The host performs terminal, process and file work; the decisions between
//! that work are made here, from application state and one event to the next
//! state and the work that follows.

use vstd::prelude::*;
use vstd::string::*;

use super::dispatch::DetailDispatchQueue;
use super::encoding::{control_of, encoded_key};
use super::shell_input::{
    is_control, law_a_focused_program_receives_every_key, KeyRouteModel, PointerRouteModel,
    RouterModel, ShellInputRouter, ShellKeyRoute, ShellPointerRoute,
};
use super::standalone::{grid_of, grid_size, GridSize};
use crate::application::app::laws::law_only_quit_leaves;
use crate::application::app::model::{AppModel, EventModel, Outcome};
use crate::application::app::{App, AppEvent};
use crate::application::command::{emergency_quit, resolved, Command};
use crate::application::provider::{ProviderRequest, RequestModel};
use crate::application::shell::ResourceShellSessionId;
use crate::infrastructure::pane_boundary_state::{
    preference_path, save, saved_text, Env, StateWrite,
};
use crate::presentation::geometry::Rect;
use crate::presentation::input::{
    control_alone, key_from_event, logical_key, mouse_from_event, pointer_action, MouseAction,
    MouseInput, TerminalKey, TerminalKeyCode, TerminalKeyKind, TerminalMouse,
};
use crate::presentation::mouse_routing::{
    law_letting_go_ends_a_drag, law_modals_own_the_screen, resolve, routed,
};
use crate::presentation::screen_layout::{LayoutModel, ScreenLayout};
use crate::text::{opt_view, views};

verus! {

/// Whether the host goes on after an input.
#[derive(Clone, Copy, Debug, PartialEq, Eq, Structural)]
pub enum ShellControl {
    Continue,
    Quit,
}

/// Input protocol modes currently requested by a Resource Shell Session.
#[derive(Clone, Copy, Debug, PartialEq, Eq, Structural)]
pub struct ResourceShellInputModes {
    pub bracketed_paste: bool,
    pub mouse_reporting: bool,
    pub sgr_mouse: bool,
}

/// A fact the private PTY runtime publishes to its host.
#[derive(Clone, Copy, Debug, PartialEq, Eq, Structural)]
pub enum ResourceShellRuntimeEvent {
    OutputReady { session_id: ResourceShellSessionId },
    Exited { session_id: ResourceShellSessionId },
}

/// The Command that a key means, the emergency Quit before all others.
pub open spec fn key_command(app: AppModel, event: TerminalKey) -> Option<Command> {
    match logical_key(event) {
        Some(key) => if key == emergency_quit() {
            Some(Command::Quit)
        } else {
            resolved(app.commands, app.active_scope(), key)
        },
        None => None,
    }
}

/// A Command carried out, if there is one.
pub open spec fn handled(app: AppModel, command: Option<Command>) -> Outcome {
    match command {
        Some(command) => app.invoked(command),
        None => (app, Seq::empty()),
    }
}

/// Whether a handled Command ends the run.
pub open spec fn control_after(app: AppModel, command: Option<Command>) -> ShellControl {
    if command is Some && handled(app, command).0.quit_requested {
        ShellControl::Quit
    } else {
        ShellControl::Continue
    }
}

/// The Command that a pointer event means in the layout that drew the screen.
#[verifier::opaque]
pub open spec fn mouse_command(
    app: AppModel,
    event: TerminalMouse,
    layout: Option<LayoutModel>,
) -> Option<Command> {
    match (layout, pointer_action(event.kind)) {
        (Some(layout), Some(action)) => routed(
            layout,
            MouseInput { action, column: event.column, row: event.row },
            app.state.pane_boundary.grab,
        ),
        _ => None,
    }
}

/// Releasing an enlarged session restores its Details presentation; releasing
/// any other changes no application state.
pub open spec fn released(app: AppModel) -> Outcome {
    if app.state.enlarged_session() is Some {
        app.invoked(Command::ToggleResourceShellSize)
    } else {
        (app, Seq::empty())
    }
}

/// Where a key goes: to the visible session's PTY while it runs, to the prefix
/// controls while an enlarged session does not, and otherwise nowhere but the
/// application.
pub open spec fn key_route(app: AppModel, router: RouterModel, key: TerminalKey) -> (
    RouterModel,
    KeyRouteModel,
) {
    match app.state.visible_running_session() {
        Some(session) => router.key_routed(session.id, key),
        None => match app.state.enlarged_session() {
            Some(session) => router.key_routed_without_terminal(session.id, key),
            None => (router, KeyRouteModel::ToTuivir),
        },
    }
}

/// The work that a key leaves for the host.
#[derive(Debug, PartialEq, Eq)]
pub enum KeyStep {
    /// Bytes for a session's PTY.
    Write { session_id: ResourceShellSessionId, bytes: Vec<u8> },
    /// The selected text of a session is to be copied, if there is any.
    CopySelection { session_id: ResourceShellSessionId },
    Settled { control: ShellControl, requests: Vec<ProviderRequest> },
}

/// What a [`KeyStep`] says.
#[verifier::ext_equal]
pub enum KeyStepModel {
    Write { session_id: ResourceShellSessionId, bytes: Seq<u8> },
    CopySelection { session_id: ResourceShellSessionId },
    Settled { control: ShellControl, requests: Seq<RequestModel> },
}

impl View for KeyStep {
    type V = KeyStepModel;

    open spec fn view(&self) -> KeyStepModel {
        match self {
            KeyStep::Write { session_id, bytes } => KeyStepModel::Write {
                session_id: *session_id,
                bytes: bytes@,
            },
            KeyStep::CopySelection { session_id } => KeyStepModel::CopySelection {
                session_id: *session_id,
            },
            KeyStep::Settled { control, requests } => KeyStepModel::Settled {
                control: *control,
                requests: views(requests@),
            },
        }
    }
}

/// A key that the application keeps. Copying from a visible session takes that
/// session's selection before the application's own.
pub open spec fn key_kept(app: AppModel, key: TerminalKey) -> (AppModel, KeyStepModel) {
    let command = key_command(app, key);
    match app.state.visible_running_session() {
        Some(session) if command == Some(Command::CopyDetails) => (
            app,
            KeyStepModel::CopySelection { session_id: session.id },
        ),
        _ => (
            handled(app, command).0,
            KeyStepModel::Settled {
                control: control_after(app, command),
                requests: handled(app, command).1,
            },
        ),
    }
}

/// What the host does about a key.
pub open spec fn key_step(app: AppModel, router: RouterModel, key: TerminalKey) -> (
    AppModel,
    RouterModel,
    KeyStepModel,
) {
    let (router, route) = key_route(app, router, key);
    match route {
        KeyRouteModel::ToPty(bytes) => (
            app,
            router,
            KeyStepModel::Write {
                session_id: app.state.visible_running_session()->0.id,
                bytes,
            },
        ),
        KeyRouteModel::Released => (
            released(app).0,
            router,
            KeyStepModel::Settled {
                control: ShellControl::Continue,
                requests: released(app).1,
            },
        ),
        KeyRouteModel::ToggleSize => (
            app.invoked(Command::ToggleResourceShellSize).0,
            router,
            KeyStepModel::Settled {
                control: ShellControl::Continue,
                requests: app.invoked(Command::ToggleResourceShellSize).1,
            },
        ),
        KeyRouteModel::ToTuivir => (key_kept(app, key).0, router, key_kept(app, key).1),
    }
}

/// The work that a pointer event leaves for the host.
#[derive(Debug, PartialEq, Eq)]
pub enum PointerStep {
    Write { session_id: ResourceShellSessionId, bytes: Vec<u8> },
    Scroll { session_id: ResourceShellSessionId, lines: i32 },
    Select { session_id: ResourceShellSessionId, start: (u16, u16), end: (u16, u16) },
    Settled { requests: Vec<ProviderRequest> },
}

/// What a [`PointerStep`] says.
#[verifier::ext_equal]
pub enum PointerStepModel {
    Write { session_id: ResourceShellSessionId, bytes: Seq<u8> },
    Scroll { session_id: ResourceShellSessionId, lines: int },
    Select { session_id: ResourceShellSessionId, start: (u16, u16), end: (u16, u16) },
    Settled { requests: Seq<RequestModel> },
}

impl View for PointerStep {
    type V = PointerStepModel;

    open spec fn view(&self) -> PointerStepModel {
        match self {
            PointerStep::Write { session_id, bytes } => PointerStepModel::Write {
                session_id: *session_id,
                bytes: bytes@,
            },
            PointerStep::Scroll { session_id, lines } => PointerStepModel::Scroll {
                session_id: *session_id,
                lines: *lines as int,
            },
            PointerStep::Select { session_id, start, end } => PointerStepModel::Select {
                session_id: *session_id,
                start: *start,
                end: *end,
            },
            PointerStep::Settled { requests } => PointerStepModel::Settled {
                requests: views(requests@),
            },
        }
    }
}

/// The session that may take a pointer event, its viewport and its modes.
pub open spec fn pointer_session(
    app: AppModel,
    layout: Option<LayoutModel>,
    modes: Option<ResourceShellInputModes>,
) -> Option<(ResourceShellSessionId, Rect, ResourceShellInputModes)> {
    match (app.state.visible_running_session(), layout, modes) {
        (Some(session), Some(layout), Some(modes)) => match layout.resource_shell {
            Some(shell) => Some((session.id, shell.terminal, modes)),
            None => None,
        },
        _ => None,
    }
}

/// What a pointer event's route comes to.
pub open spec fn pointer_settled(
    app: AppModel,
    route: PointerRouteModel,
    session_id: ResourceShellSessionId,
    event: TerminalMouse,
    layout: Option<LayoutModel>,
) -> (AppModel, PointerStepModel) {
    match route {
        PointerRouteModel::ToPty(bytes) => (app, PointerStepModel::Write { session_id, bytes }),
        PointerRouteModel::Select { start, end } => (
            app,
            PointerStepModel::Select { session_id, start, end },
        ),
        PointerRouteModel::Scroll { lines } => (
            app,
            PointerStepModel::Scroll { session_id, lines },
        ),
        PointerRouteModel::Nowhere => (
            app,
            PointerStepModel::Settled { requests: Seq::empty() },
        ),
        PointerRouteModel::ToTuivir => {
            let kept = handled(app, mouse_command(app, event, layout));
            (kept.0, PointerStepModel::Settled { requests: kept.1 })
        },
    }
}

/// What the host does about a pointer event. One that no session may take is
/// the application's.
pub open spec fn pointer_step(
    app: AppModel,
    router: RouterModel,
    event: TerminalMouse,
    layout: Option<LayoutModel>,
    modes: Option<ResourceShellInputModes>,
) -> (AppModel, RouterModel, PointerStepModel) {
    match pointer_session(app, layout, modes) {
        None => {
            let kept = handled(app, mouse_command(app, event, layout));
            (kept.0, router, PointerStepModel::Settled { requests: kept.1 })
        },
        Some((session_id, viewport, modes)) => {
            let (router, route) = router.pointer_routed(
                session_id,
                event,
                viewport,
                modes.mouse_reporting,
                modes.sgr_mouse,
            );
            let (app, step) = pointer_settled(app, route, session_id, event, layout);
            (app, router, step)
        },
    }
}

/// What the host does about a paste: the session it goes to, and its bytes.
pub open spec fn paste_step(
    app: AppModel,
    router: RouterModel,
    text: Seq<char>,
    modes: Option<ResourceShellInputModes>,
) -> (RouterModel, Option<(ResourceShellSessionId, Seq<u8>)>) {
    match app.state.visible_running_session() {
        Some(session) => {
            let bracketed = modes is Some && modes->0.bracketed_paste;
            let (router, route) = router.paste_routed(session.id, text, bracketed);
            match route {
                KeyRouteModel::ToPty(bytes) => (router, Some((session.id, bytes))),
                _ => (router, None),
            }
        },
        None => (router, None),
    }
}

/// The grid that a session starts with: its terminal's, or a usual one while it
/// has no place on the screen.
pub open spec fn start_grid(layout: Option<LayoutModel>) -> GridSize {
    match layout {
        Some(layout) => match layout.resource_shell {
            Some(shell) => grid_of(shell.terminal.width, shell.terminal.height),
            None => GridSize { lines: 24, columns: 80 },
        },
        None => GridSize { lines: 24, columns: 80 },
    }
}

/// Whether a session's output is on the screen.
pub open spec fn shows_output(app: AppModel, session_id: ResourceShellSessionId) -> bool {
    app.state.visible_running_session() matches Some(session) && session.id == session_id
}

fn no_requests() -> (requests: Vec<ProviderRequest>)
    ensures
        views(requests@) == Seq::<RequestModel>::empty(),
{
    let requests: Vec<ProviderRequest> = Vec::new();
    assert(views(requests@) =~= Seq::<RequestModel>::empty());
    requests
}

/// Maps terminal input at the host boundary, then asks the application to
/// resolve and invoke the resulting logical command.
pub fn handle_key(app: &mut App, event: TerminalKey) -> (result: (ShellControl, Vec<ProviderRequest>))
    requires
        old(app)@.can_allocate(),
    ensures
        (final(app)@, views(result.1@)) == handled(old(app)@, key_command(old(app)@, event)),
        result.0 == control_after(old(app)@, key_command(old(app)@, event)),
{
    let command = resolve_key_command(app, event);
    handle_command(app, command)
}

/// The Command that a key means.
pub fn resolve_key_command(app: &App, event: TerminalKey) -> (command: Option<Command>)
    ensures
        command == key_command(app@, event),
{
    match key_from_event(event) {
        Some(key) => match app.reserved(key) {
            Some(command) => Some(command),
            None => app.resolve_command(key),
        },
        None => None,
    }
}

/// Carries out a Command, if there is one.
pub fn handle_command(app: &mut App, command: Option<Command>) -> (result: (
    ShellControl,
    Vec<ProviderRequest>,
))
    requires
        old(app)@.can_allocate(),
    ensures
        (final(app)@, views(result.1@)) == handled(old(app)@, command),
        result.0 == control_after(old(app)@, command),
{
    match command {
        Some(command) => {
            let requests = app.invoke(command);
            let control = if app.quit_is_ready() {
                ShellControl::Quit
            } else {
                ShellControl::Continue
            };
            (control, requests)
        },
        None => (ShellControl::Continue, no_requests()),
    }
}

/// Releases terminal focus. From an enlarged session, the same gesture also
/// restores the normal Details presentation; from Details it changes no
/// application state.
pub fn release_resource_shell(app: &mut App) -> (requests: Vec<ProviderRequest>)
    requires
        old(app)@.can_allocate(),
    ensures
        (final(app)@, views(requests@)) == released(old(app)@),
{
    let enlarged = app.state().enlarged_resource_shell_session().is_some();
    if enlarged {
        app.invoke(Command::ToggleResourceShellSize)
    } else {
        no_requests()
    }
}

/// The Command that a pointer event means.
pub fn resolve_mouse_command(app: &App, event: TerminalMouse, layout: Option<&ScreenLayout>) -> (command:
    Option<Command>)
    ensures
        command == mouse_command(app@, event, opt_view(layout)),
{
    proof {
        reveal(mouse_command);
    }
    match layout {
        Some(layout) => match mouse_from_event(event) {
            Some(input) => resolve(layout, input, app.state().pane_boundary.grab()),
            None => None,
        },
        None => None,
    }
}

/// Routes one terminal mouse event through the layout that drew the screen.
///
/// The mouse resolves to a Command and goes through `App::invoke`, exactly as a
/// Keybinding does, so it can never take a shortcut past the work a Command
/// carries with it.
pub fn handle_mouse(app: &mut App, event: TerminalMouse, layout: Option<&ScreenLayout>) -> (requests:
    Vec<ProviderRequest>)
    requires
        old(app)@.can_allocate(),
    ensures
        (final(app)@, views(requests@)) == handled(
            old(app)@,
            mouse_command(old(app)@, event, opt_view(layout)),
        ),
{
    match resolve_mouse_command(app, event, layout) {
        Some(command) => app.invoke(command),
        None => no_requests(),
    }
}

/// Decides what a key means while a session may be visible.
pub fn key_pressed(app: &mut App, router: &mut ShellInputRouter, key: TerminalKey) -> (step: KeyStep)
    requires
        old(app)@.can_allocate(),
    ensures
        (final(app)@, final(router)@, step@) == key_step(old(app)@, old(router)@, key),
{
    let running: Option<ResourceShellSessionId> = match app.state().visible_running_resource_shell_session() {
        Some(session) => Some(session.id),
        None => None,
    };
    let route = match running {
        Some(session_id) => router.route(session_id, key),
        None => match app.state().enlarged_resource_shell_session() {
            Some(session) => router.route_without_terminal(session.id, key),
            None => ShellKeyRoute::ToTuivir,
        },
    };
    match route {
        ShellKeyRoute::ToPty(bytes) => match running {
            Some(session_id) => KeyStep::Write { session_id, bytes },
            None => KeyStep::Settled { control: ShellControl::Continue, requests: no_requests() },
        },
        ShellKeyRoute::Released => KeyStep::Settled {
            control: ShellControl::Continue,
            requests: release_resource_shell(app),
        },
        ShellKeyRoute::ToggleSize => KeyStep::Settled {
            control: ShellControl::Continue,
            requests: app.invoke(Command::ToggleResourceShellSize),
        },
        ShellKeyRoute::ToTuivir => {
            let command = resolve_key_command(app, key);
            match (command, running) {
                (Some(Command::CopyDetails), Some(session_id)) => KeyStep::CopySelection {
                    session_id,
                },
                _ => {
                    let (control, requests) = handle_command(app, command);
                    KeyStep::Settled { control, requests }
                },
            }
        },
    }
}

/// What copying from a session comes to, once its selected text is known: the
/// text for the clipboard, or the application's own copy where there is none.
pub fn selection_copied(app: &mut App, selected: Option<String>) -> (result: (
    Option<String>,
    ShellControl,
    Vec<ProviderRequest>,
))
    requires
        old(app)@.can_allocate(),
    ensures
        result.0 == selected,
        selected is Some ==> final(app)@ == old(app)@ && result.1 == ShellControl::Continue
            && result.2@.len() == 0,
        selected is None ==> (final(app)@, views(result.2@)) == handled(
            old(app)@,
            Some(Command::CopyDetails),
        ) && result.1 == control_after(old(app)@, Some(Command::CopyDetails)),
{
    match selected {
        Some(text) => (Some(text), ShellControl::Continue, Vec::new()),
        None => {
            let (control, requests) = handle_command(app, Some(Command::CopyDetails));
            (None, control, requests)
        },
    }
}

fn settle_pointer(
    app: &mut App,
    route: ShellPointerRoute,
    session_id: ResourceShellSessionId,
    event: TerminalMouse,
    layout: Option<&ScreenLayout>,
) -> (step: PointerStep)
    requires
        old(app)@.can_allocate(),
    ensures
        (final(app)@, step@) == pointer_settled(
            old(app)@,
            route@,
            session_id,
            event,
            opt_view(layout),
        ),
{
    match route {
        ShellPointerRoute::ToPty(bytes) => PointerStep::Write { session_id, bytes },
        ShellPointerRoute::Select { start, end } => PointerStep::Select { session_id, start, end },
        ShellPointerRoute::Scroll { lines } => PointerStep::Scroll { session_id, lines },
        ShellPointerRoute::Nowhere => PointerStep::Settled { requests: no_requests() },
        ShellPointerRoute::ToTuivir => PointerStep::Settled {
            requests: handle_mouse(app, event, layout),
        },
    }
}

/// Decides what a pointer event means while a session may be visible. The
/// modes are those of the visible session, where its runtime is live.
pub fn pointer_moved(
    app: &mut App,
    router: &mut ShellInputRouter,
    event: TerminalMouse,
    layout: Option<&ScreenLayout>,
    modes: Option<ResourceShellInputModes>,
) -> (step: PointerStep)
    requires
        old(app)@.can_allocate(),
    ensures
        (final(app)@, final(router)@, step@) == pointer_step(
            old(app)@,
            old(router)@,
            event,
            opt_view(layout),
            modes,
        ),
{
    let running: Option<ResourceShellSessionId> = match app.state().visible_running_resource_shell_session() {
        Some(session) => Some(session.id),
        None => None,
    };
    let viewport: Option<Rect> = match layout {
        Some(layout) => match layout.resource_shell {
            Some(shell) => Some(shell.terminal),
            None => None,
        },
        None => None,
    };
    match (running, viewport, modes) {
        (Some(session_id), Some(viewport), Some(modes)) => {
            let route = router.route_mouse(
                session_id,
                event,
                viewport,
                modes.mouse_reporting,
                modes.sgr_mouse,
            );
            settle_pointer(app, route, session_id, event, layout)
        },
        _ => PointerStep::Settled { requests: handle_mouse(app, event, layout) },
    }
}

/// Decides where a paste goes.
pub fn pasted(
    app: &App,
    router: &mut ShellInputRouter,
    text: &str,
    modes: Option<ResourceShellInputModes>,
) -> (written: Option<(ResourceShellSessionId, Vec<u8>)>)
    ensures
        ({
            let (after, step) = paste_step(app@, old(router)@, text@, modes);
            &&& final(router)@ == after
            &&& written is Some <==> step is Some
            &&& written matches Some((session_id, bytes)) ==> step == Some((session_id, bytes@))
        }),
{
    match app.state().visible_running_resource_shell_session() {
        Some(session) => {
            let bracketed = match modes {
                Some(modes) => modes.bracketed_paste,
                None => false,
            };
            match router.route_paste(session.id, text, bracketed) {
                ShellKeyRoute::ToPty(bytes) => Some((session.id, bytes)),
                _ => None,
            }
        },
        None => None,
    }
}

/// Whether a coalesced PTY output wakeup needs another frame. Hidden sessions
/// keep draining in their private runtime, but their terminal cells are not
/// part of the current frame and therefore must not wake the renderer.
pub fn resource_shell_output_requires_redraw(app: &App, session_id: ResourceShellSessionId) -> (redraw:
    bool)
    ensures
        redraw == shows_output(app@, session_id),
{
    match app.state().visible_running_resource_shell_session() {
        Some(session) => session.id == session_id,
        None => false,
    }
}

/// What a runtime event comes to: Provider work, and whether the screen is to
/// be drawn again.
pub fn shell_runtime_event(app: &mut App, event: ResourceShellRuntimeEvent) -> (result: (
    Vec<ProviderRequest>,
    bool,
))
    requires
        old(app)@.can_allocate(),
    ensures
        match event {
            ResourceShellRuntimeEvent::OutputReady { session_id } => final(app)@ == old(app)@
                && result.0@.len() == 0 && result.1 == shows_output(old(app)@, session_id),
            ResourceShellRuntimeEvent::Exited { session_id } => (final(app)@, views(result.0@))
                == old(app)@.updated(EventModel::ResourceShellExited { session_id }) && result.1,
        },
{
    match event {
        ResourceShellRuntimeEvent::OutputReady { session_id } => (
            Vec::new(),
            resource_shell_output_requires_redraw(app, session_id),
        ),
        ResourceShellRuntimeEvent::Exited { session_id } => {
            let requests = app.update(AppEvent::ResourceShellExited { session_id });
            (requests, true)
        },
    }
}

/// The deferred request to start now: one that has waited long enough and
/// still describes what the user looks at.
pub fn detail_due(app: &App, queue: &mut DetailDispatchQueue, now: u64) -> (due: Option<
    ProviderRequest,
>)
    ensures
        final(queue)@ == old(queue)@.ready_taken(now).0,
        due matches Some(request) ==> old(queue)@.ready_taken(now).1 == Some(request@)
            && app@.detail_is_current(request@),
        due is None ==> (old(queue)@.ready_taken(now).1 matches Some(request)
            ==> !app@.detail_is_current(request)),
{
    match queue.take_ready(now) {
        Some(request) => {
            if app.detail_request_is_current(&request) {
                Some(request)
            } else {
                None
            }
        },
        None => None,
    }
}

/// The grid that a session starts with: the terminal area of its layout, or a
/// common size before anything was drawn.
pub fn start_size(layout: Option<&ScreenLayout>) -> (size: GridSize)
    ensures
        size == start_grid(opt_view(layout)),
{
    match layout {
        Some(layout) => match layout.resource_shell {
            Some(shell) => grid_size(shell.terminal.width, shell.terminal.height),
            None => grid_size(80, 24),
        },
        None => grid_size(80, 24),
    }
}

/// Tells the application how starting a session ended.
pub fn shell_start_ended(
    app: &mut App,
    session_id: ResourceShellSessionId,
    failure: Option<String>,
) -> (requests: Vec<ProviderRequest>)
    requires
        old(app)@.can_allocate(),
    ensures
        (final(app)@, views(requests@)) == old(app)@.updated(
            match opt_view(failure) {
                Some(reason) => EventModel::ResourceShellStartFailed { session_id, reason },
                None => EventModel::ResourceShellStarted { session_id },
            },
        ),
{
    match failure {
        Some(reason) => app.update(AppEvent::ResourceShellStartFailed { session_id, reason }),
        None => app.update(AppEvent::ResourceShellStarted { session_id }),
    }
}

/// The write that a finished resize leaves for the host, once.
pub fn persist_pane_boundary(app: &mut App, env: &Env) -> (write: Option<StateWrite>)
    ensures
        final(app)@ == (AppModel { pending_boundary_save: None, ..old(app)@ }),
        write is Some <==> old(app)@.pending_boundary_save is Some && preference_path(
            env@,
        ) is Some,
        write matches Some(write) ==> Some(write.path@) == preference_path(env@)
            && write.contents@ == saved_text(old(app)@.pending_boundary_save->0),
{
    match app.take_pending_pane_boundary_save() {
        Some(boundary) => save(env, boundary),
        None => None,
    }
}

/// `ctrl+c` as a terminal reports it.
pub open spec fn ctrl_c() -> TerminalKey {
    TerminalKey {
        code: TerminalKeyCode::Char('c'),
        modifiers: control_alone(),
        kind: TerminalKeyKind::Press,
    }
}

/// While no session takes the keyboard, `ctrl+c` ends the run, whatever is
/// configured and whatever is on the screen.
pub proof fn law_ctrl_c_quits_outside_a_session(app: AppModel, router: RouterModel)
    requires
        app.state.visible_running_session() is None,
        app.state.enlarged_session() is None,
    ensures
        key_step(app, router, ctrl_c()).0.quit_requested,
        key_step(app, router, ctrl_c()).2 matches KeyStepModel::Settled { control, .. } && control
            == ShellControl::Quit,
{
    law_only_quit_leaves(app, Command::Quit);
}

proof fn lemma_ctrl_c_is_delivered(router: RouterModel, session_id: ResourceShellSessionId)
    requires
        router.attending(session_id, true).focused,
        !router.attending(session_id, true).prefix_pending,
        !is_control(router.controls.prefix, ctrl_c()),
    ensures
        router.key_routed(session_id, ctrl_c()).1 == KeyRouteModel::ToPty(seq![0x03u8]),
{
    law_a_focused_program_receives_every_key(router, session_id, ctrl_c());
    assert(control_of('c') == 3);
    assert(encoded_key(ctrl_c().code, true) == Some(seq![control_of('c')]));
}

/// Inside a session that has the keyboard, `ctrl+c` interrupts the session's
/// program and leaves Tuivir alone.
pub proof fn law_ctrl_c_interrupts_a_focused_session(app: AppModel, router: RouterModel)
    requires
        app.state.visible_running_session() matches Some(session) && router.attending(
            session.id,
            true,
        ).focused && !router.attending(session.id, true).prefix_pending,
        !is_control(router.controls.prefix, ctrl_c()),
    ensures
        key_step(app, router, ctrl_c()).0 == app,
        key_step(app, router, ctrl_c()).2 == (KeyStepModel::Write {
            session_id: app.state.visible_running_session()->0.id,
            bytes: seq![0x03u8],
        }),
{
    lemma_ctrl_c_is_delivered(router, app.state.visible_running_session()->0.id);
}

/// Input is written to the session on the screen and to no other, and writing
/// it changes nothing of the application.
pub proof fn law_input_reaches_only_the_visible_session(
    app: AppModel,
    router: RouterModel,
    key: TerminalKey,
)
    ensures
        key_step(app, router, key).2 matches KeyStepModel::Write { session_id, .. } ==> {
            &&& app.state.visible_running_session() is Some
            &&& app.state.visible_running_session()->0.id == session_id
            &&& key_step(app, router, key).0 == app
        },
{
}

proof fn lemma_a_modal_hides_commands(app: AppModel, event: TerminalMouse, layout: LayoutModel)
    requires
        layout.overlay is Some,
        app.state.pane_boundary.grab is None,
    ensures
        mouse_command(app, event, Some(layout)) is None,
{
    reveal(mouse_command);
    match pointer_action(event.kind) {
        Some(action) => {
            let input = MouseInput { action, column: event.column, row: event.row };
            if action == MouseAction::Release {
                law_letting_go_ends_a_drag(layout, input, None);
            } else {
                law_modals_own_the_screen(layout, input, None);
            }
        },
        None => {},
    }
}

/// The pointer is routed by the layout on the screen. While a modal is open
/// and no boundary is held, a pointer event that no session takes changes
/// nothing.
pub proof fn law_a_modal_swallows_the_pointer(
    app: AppModel,
    router: RouterModel,
    event: TerminalMouse,
    layout: LayoutModel,
)
    requires
        layout.overlay is Some,
        app.state.pane_boundary.grab is None,
    ensures
        mouse_command(app, event, Some(layout)) is None,
        pointer_step(app, router, event, Some(layout), None).0 == app,
        pointer_step(app, router, event, Some(layout), None).2 == (PointerStepModel::Settled {
            requests: Seq::empty(),
        }),
{
    lemma_a_modal_hides_commands(app, event, layout);
}

} // verus!
