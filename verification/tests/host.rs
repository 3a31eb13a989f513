//! Terminal input, event dispatch, and durable UI state, as the host sees them.

use tuivir::application::{
    App, AppEvent, AppState, Command, DetailView, FocusedPane, ProviderRequest, ProviderRequestId,
    Resource, ResourceCommand, ResourcePanel, ResourceShellProcess, ResourceShellSessionId,
    WorkspaceSnapshot,
};
use tuivir::domain::{
    DetailViewId, Provider, ProviderId, ResourceId, ResourcePanelId, ResourceState, ResourceTarget,
    TargetEnvironment,
};
use tuivir::host::clipboard::clipboard_sequence;
use tuivir::host::dispatch::DetailDispatchQueue;
use tuivir::host::event_loop::{
    handle_key, handle_mouse, persist_pane_boundary, release_resource_shell,
};
use tuivir::host::shell_input::{ShellInputRouter, ShellKeyRoute, ShellPointerRoute};
use tuivir::infrastructure::pane_boundary_state::Env as StateEnv;
use tuivir::infrastructure::provider::ProviderDiscovery;
use tuivir::presentation::drawing::{Drawing, Widget};
use tuivir::presentation::geometry::Rect;
use tuivir::presentation::input::{
    TerminalButton, TerminalKey, TerminalKeyCode, TerminalModifiers, TerminalMouse,
    TerminalMouseKind,
};
use tuivir::presentation::{
    mouse_from_event, render, resolve_mouse, MouseAction, MouseInput, ScreenLayout, WorkspacePanes,
};

fn key(code: TerminalKeyCode) -> TerminalKey {
    TerminalKey::new(code, TerminalModifiers::none())
}

fn ctrl(character: char) -> TerminalKey {
    TerminalKey::new(TerminalKeyCode::Char(character), TerminalModifiers::control())
}

fn mouse(kind: TerminalMouseKind, column: u16, row: u16) -> TerminalMouse {
    TerminalMouse {
        kind,
        column,
        row,
        modifiers: TerminalModifiers::none(),
    }
}

fn state_env() -> StateEnv {
    StateEnv {
        home: Some("/home/me".to_owned()),
        ..StateEnv::default()
    }
}

#[test]
fn releasing_a_resized_pane_boundary_persists_one_preference() {
    let mut app = App::new();
    let env = state_env();
    let mut written = Vec::new();

    for command in [
        Command::GrabPaneBoundary(0),
        Command::SetPaneBoundary(60),
        Command::ReleasePaneBoundary,
    ] {
        app.invoke(command);
        if let Some(write) = persist_pane_boundary(&mut app, &env) {
            written.push(write.contents);
        }
    }

    assert_eq!(
        written,
        vec![r#"{"resources_percent":60}"#],
        "drag updates reach durable state only once the user lets go"
    );
}

#[test]
fn a_pane_boundary_write_failure_uses_the_normal_in_app_error() {
    let mut app = App::new();

    app.invoke(Command::MovePaneBoundaryRight);
    let write = persist_pane_boundary(&mut app, &state_env());
    assert!(write.is_some());
    app.report_pane_boundary_persistence_failure("disk full".to_owned());

    assert_eq!(
        app.state().command_error.as_deref(),
        Some("saving Pane Boundary failed: disk full")
    );
}

#[test]
fn ctrl_b_q_releases_a_resource_shell_sessions_keyboard_focus() {
    let session = ResourceShellSessionId::new(7);
    let mut router = ShellInputRouter::default();

    assert!(matches!(
        router.route(session, key(TerminalKeyCode::Char('l'))),
        ShellKeyRoute::ToPty(bytes) if bytes == b"l"
    ));
    assert!(matches!(
        router.route(session, ctrl('b')),
        ShellKeyRoute::ToTuivir
    ));
    assert!(matches!(
        router.route(session, key(TerminalKeyCode::Char('q'))),
        ShellKeyRoute::Released
    ));
    assert!(matches!(
        router.route(session, key(TerminalKeyCode::Char('x'))),
        ShellKeyRoute::ToTuivir
    ));
}

#[test]
fn ctrl_b_z_toggles_the_resource_shell_sessions_size_without_reaching_its_pty() {
    let session = ResourceShellSessionId::new(7);
    let mut router = ShellInputRouter::default();

    assert!(matches!(
        router.route(session, ctrl('b')),
        ShellKeyRoute::ToTuivir
    ));
    assert!(matches!(
        router.route(session, key(TerminalKeyCode::Char('z'))),
        ShellKeyRoute::ToggleSize
    ));
}

#[test]
fn releasing_an_enlarged_resource_shell_restores_the_details_presentation() {
    let mut app = app_on_a_loaded_workspace();
    app.invoke(Command::OpenShell);
    let session = app.state().resource_shell_sessions[0].id;

    assert!(app.state().enlarged_resource_shell_session().is_some());
    assert!(release_resource_shell(&mut app).is_empty());
    assert!(app.state().enlarged_resource_shell_session().is_none());
    assert_eq!(app.state().resource_shell_sessions[0].id, session);
}

#[test]
fn ctrl_b_ctrl_b_sends_one_literal_prefix_to_the_resource_shell_session() {
    let session = ResourceShellSessionId::new(7);
    let mut router = ShellInputRouter::default();

    assert!(matches!(
        router.route(session, ctrl('b')),
        ShellKeyRoute::ToTuivir
    ));
    assert!(matches!(
        router.route(session, ctrl('b')),
        ShellKeyRoute::ToPty(bytes) if bytes == [0x02]
    ));
}

#[test]
fn a_prefix_followed_by_an_unrecognised_key_reaches_the_resource_shell_session() {
    let session = ResourceShellSessionId::new(7);
    let mut router = ShellInputRouter::default();

    assert!(matches!(
        router.route(session, ctrl('b')),
        ShellKeyRoute::ToTuivir
    ));
    assert!(matches!(
        router.route(session, key(TerminalKeyCode::F(13))),
        ShellKeyRoute::ToPty(bytes) if bytes == b"\x02\x1b[25~"
    ));
}

#[test]
fn focused_resource_shell_session_receives_escape_ctrl_c_and_function_keys() {
    let session = ResourceShellSessionId::new(7);
    let mut router = ShellInputRouter::default();

    assert!(matches!(
        router.route(session, key(TerminalKeyCode::Esc)),
        ShellKeyRoute::ToPty(bytes) if bytes == [0x1b]
    ));
    assert!(matches!(
        router.route(session, ctrl('c')),
        ShellKeyRoute::ToPty(bytes) if bytes == [0x03]
    ));
    assert!(matches!(
        router.route(session, key(TerminalKeyCode::F(1))),
        ShellKeyRoute::ToPty(bytes) if bytes == b"\x1bOP"
    ));
}

#[test]
fn multiline_unicode_paste_uses_the_resource_shell_sessions_bracketed_paste_mode() {
    let session = ResourceShellSessionId::new(7);
    let mut router = ShellInputRouter::default();
    let _ = router.route(session, key(TerminalKeyCode::Char('i')));

    assert!(matches!(
        router.route_paste(session, "first\n鮫", true),
        ShellKeyRoute::ToPty(bytes) if bytes == b"\x1b[200~first\n\xe9\xae\xab\x1b[201~"
    ));
    assert!(matches!(
        router.route_paste(session, "first\n鮫", false),
        ShellKeyRoute::ToPty(bytes) if bytes == "first\n鮫".as_bytes()
    ));
}

#[test]
fn a_focused_resource_shell_session_receives_mouse_coordinates_relative_to_its_viewport() {
    let session = ResourceShellSessionId::new(7);
    let mut router = ShellInputRouter::default();
    let _ = router.route(session, key(TerminalKeyCode::Char('i')));

    assert!(matches!(
        router.route_mouse(
            session,
            mouse(TerminalMouseKind::Down(TerminalButton::Left), 12, 23),
            Rect::new(10, 20, 40, 10),
            true,
            true,
        ),
        ShellPointerRoute::ToPty(bytes) if bytes == b"\x1b[<0;3;4M"
    ));
}

#[test]
fn dragging_or_wheeling_without_mouse_reporting_selects_or_scrolls_without_shell_input() {
    let session = ResourceShellSessionId::new(7);
    let mut router = ShellInputRouter::default();
    let area = Rect::new(10, 20, 40, 10);

    assert!(matches!(
        router.route_mouse(
            session,
            mouse(TerminalMouseKind::Down(TerminalButton::Left), 12, 23),
            area,
            false,
            false,
        ),
        ShellPointerRoute::Nowhere
    ));
    assert!(matches!(
        router.route_mouse(
            session,
            mouse(TerminalMouseKind::Drag(TerminalButton::Left), 15, 24),
            area,
            false,
            false,
        ),
        ShellPointerRoute::Select {
            start: (2, 3),
            end: (5, 4)
        }
    ));
    assert!(matches!(
        router.route_mouse(
            session,
            mouse(TerminalMouseKind::ScrollUp, 12, 23),
            area,
            false,
            false,
        ),
        ShellPointerRoute::Scroll { lines: 3 }
    ));
}

fn docker_discovery() -> ProviderDiscovery {
    ProviderDiscovery::new(
        Provider::new(
            ProviderId::new("docker"),
            "Docker",
            Some(TargetEnvironment::new("desktop-linux")),
            None,
        ),
        None,
    )
}

fn detail_request(resource_id: &str) -> ProviderRequest {
    ProviderRequest::LoadResourceDetails {
        request_id: ProviderRequestId::new(1),
        provider_id: ProviderId::new("docker"),
        target: ResourceTarget::new(
            ResourcePanelId::new("containers"),
            ResourceId::new(resource_id),
        ),
        view_id: DetailViewId::new("logs"),
    }
}

fn refresh_request() -> ProviderRequest {
    ProviderRequest::RefreshWorkspace {
        request_id: ProviderRequestId::new(2),
        provider_id: ProviderId::new("docker"),
    }
}

#[test]
fn clipboard_adapter_emits_osc_52_for_exact_text() {
    let written = clipboard_sequence("a\nb");
    assert_eq!(written.as_bytes(), b"\x1b]52;c;YQpi\x07");
}

#[test]
fn a_navigation_burst_dispatches_only_the_detail_view_where_selection_settles() {
    let quiet_period = 75;
    let started = 1_000;
    let mut dispatch = DetailDispatchQueue::new(quiet_period);

    assert_eq!(
        dispatch.accept(started, detail_request("container-a")),
        None
    );
    assert_eq!(
        dispatch.accept(started, refresh_request()),
        Some(refresh_request()),
        "refresh work remains immediate"
    );
    assert!(dispatch
        .accept(started + 20, detail_request("container-b"))
        .is_none());
    assert!(dispatch.take_ready(started + 94).is_none());
    assert_eq!(
        dispatch.take_ready(started + 95),
        Some(detail_request("container-b")),
    );
}

fn container(id: &str, name: &str) -> Resource {
    Resource {
        id: ResourceId::new(id),
        name: name.to_owned(),
        secondary_text: None,
        status: Some("running".to_owned()),
        state: Some(ResourceState::Running),
        fields: vec![("Image", "nginx:1.27".to_owned())],
        snapshot_details: Vec::new(),
        available_commands: &[ResourceCommand::Stop],
        shell: Some(ResourceShellProcess::new(
            "docker",
            &["exec", "-it", "container-a", "/bin/sh"],
        )),
    }
}

/// One running container, carrying the Resource Shell Session Docker offers
/// inside it.
fn running_container() -> WorkspaceSnapshot {
    WorkspaceSnapshot {
        panels: vec![ResourcePanel {
            id: ResourcePanelId::new("containers"),
            title: "Containers".to_owned(),
            detail_views: vec![DetailView::new("logs", "Logs")],
            resources: vec![container("container-a", "api")],
        }],
    }
}

/// The same Workspace with a second container, so a click can land on a
/// Resource that is not already selected.
fn two_containers() -> WorkspaceSnapshot {
    let mut snapshot = running_container();
    snapshot.panels[0]
        .resources
        .push(container("container-b", "worker"));
    snapshot
}

/// An application sitting on a loaded Docker Workspace, with nothing pending.
fn app_on_a_loaded_workspace() -> App {
    app_on_workspace(running_container())
}

fn app_on_workspace(snapshot: WorkspaceSnapshot) -> App {
    let mut app = App::new();
    let requests = app.update(docker_discovery().into_event());
    let ProviderRequest::RefreshWorkspace {
        request_id,
        provider_id,
    } = requests.into_iter().next().expect("an initial refresh")
    else {
        panic!("discovery refreshes the Active Workspace");
    };
    app.update(AppEvent::RefreshCompleted {
        request_id,
        provider_id,
        result: Ok(snapshot),
    });
    app
}

fn screen() -> Rect {
    Rect::new(0, 0, 80, 24)
}

fn click(app: &mut App, layout: &ScreenLayout, column: u16, row: u16) -> Vec<ProviderRequest> {
    pointer(
        app,
        layout,
        TerminalMouseKind::Down(TerminalButton::Left),
        column,
        row,
    )
}

fn pointer(
    app: &mut App,
    layout: &ScreenLayout,
    kind: TerminalMouseKind,
    column: u16,
    row: u16,
) -> Vec<ProviderRequest> {
    handle_mouse(app, mouse(kind, column, row), Some(layout))
}

fn drawn_text(drawings: &[Drawing]) -> String {
    let mut text = String::new();
    for drawing in drawings {
        let lines = match &drawing.widget {
            Widget::Paragraph { lines, .. } => lines,
            Widget::List { items, .. } => items,
            _ => continue,
        };
        for line in lines {
            for span in &line.spans {
                text.push_str(&span.text);
            }
            text.push('\n');
        }
    }
    text
}

/// One whole gesture through the terminal's own event type: take hold of the
/// Pane Boundary, carry it, and let go.
///
/// Grabbing must not focus the Resource Panel the boundary's left column sits
/// in, and a drag after the release must find nothing to move.
#[test]
fn a_whole_drag_gesture_resizes_the_panes_and_then_lets_go() {
    let mut app = app_on_workspace(two_containers());
    let layout = ScreenLayout::measure(app.state(), screen());
    let boundary = layout
        .panes
        .as_ref()
        .expect("a Provider Workspace is active")
        .pane_boundary;
    let row = boundary.y + 2;
    let focus_before = app.state().focused_pane;

    pointer(
        &mut app,
        &layout,
        TerminalMouseKind::Down(TerminalButton::Left),
        boundary.x,
        row,
    );

    assert_eq!(
        app.state().focused_pane,
        focus_before,
        "taking hold of the boundary is not focusing the Pane behind it"
    );

    pointer(
        &mut app,
        &layout,
        TerminalMouseKind::Drag(TerminalButton::Left),
        51,
        row,
    );

    assert_eq!(
        app.state().pane_boundary.resources_percent(),
        65,
        "column 51 ends a Resources column 52 of the 80 the Workspace has"
    );

    pointer(
        &mut app,
        &layout,
        TerminalMouseKind::Up(TerminalButton::Left),
        51,
        row,
    );
    pointer(
        &mut app,
        &layout,
        TerminalMouseKind::Drag(TerminalButton::Left),
        30,
        row,
    );

    assert_eq!(
        app.state().pane_boundary.resources_percent(),
        65,
        "a drag after the release carries nothing"
    );
}

/// A clicked Resource starts on its snapshot-backed Overview, so selecting it
/// never asks the Provider to load a hidden Detail View Tab.
#[test]
fn clicking_a_resource_row_selects_it_without_loading_hidden_details() {
    let mut app = app_on_workspace(two_containers());
    let layout = ScreenLayout::measure(app.state(), screen());
    let panes = layout.panes.as_ref().expect("a Workspace is active");
    let (_, row) = panes.resource_rows[0][1];

    let requests = click(&mut app, &layout, row.x, row.y);

    assert_eq!(
        app.state().focused_pane,
        FocusedPane::Resources,
        "clicking a Resource focuses the Panel holding it"
    );
    assert!(requests.is_empty(), "unexpected requests: {requests:?}");
    assert!(drawn_text(&render(app.state(), screen())).contains("[ Overview ]"));
}

#[test]
fn clicking_a_provider_workspace_makes_it_active() {
    let mut app = app_on_a_loaded_workspace();
    let layout = ScreenLayout::measure(app.state(), screen());
    let workspace = layout.provider_workspaces[0];

    click(&mut app, &layout, workspace.x, workspace.y);

    assert_eq!(app.state().active_provider, Some(0));
    assert_eq!(app.state().focused_pane, FocusedPane::Providers);
}

/// Pointing is not focusing: the wheel moves what is under the pointer and
/// leaves the keyboard exactly where the user left it.
#[test]
fn the_wheel_scrolls_without_moving_keyboard_focus() {
    let mut app = app_on_a_loaded_workspace();
    handle_key(&mut app, key(TerminalKeyCode::Char('p')));
    let focus_before = app.state().focused_pane;
    let layout = ScreenLayout::measure(app.state(), screen());
    let panel = layout
        .panes
        .as_ref()
        .expect("a Workspace is active")
        .resource_panels[0];

    handle_mouse(
        &mut app,
        mouse(TerminalMouseKind::ScrollDown, panel.x + 1, panel.y + 1),
        Some(&layout),
    );

    assert_eq!(
        app.state().focused_pane,
        focus_before,
        "the wheel never changes which Pane the keyboard drives"
    );
}

/// A modal owns the screen, so a click meant for it must not reach the
/// Provider Workspaces drawn underneath.
#[test]
fn a_click_on_an_open_overlay_changes_nothing_beneath_it() {
    let mut app = app_on_a_loaded_workspace();
    handle_key(&mut app, key(TerminalKeyCode::Char('?')));
    let layout = ScreenLayout::measure(app.state(), screen());
    assert!(layout.overlay.is_some(), "the help overlay is open");
    let focus_before = app.state().focused_pane;
    let workspace = layout.provider_workspaces[0];

    click(&mut app, &layout, workspace.x, workspace.y);

    assert_eq!(app.state().focused_pane, focus_before);
}

fn press(column: u16, row: u16) -> MouseInput {
    MouseInput {
        action: MouseAction::Press,
        column,
        row,
    }
}

/// Every region resolves to the Command it means, with no terminal involved.
#[test]
fn mouse_routing_resolves_each_region_without_a_terminal() {
    let layout = ScreenLayout {
        provider_bar: Rect::new(0, 0, 80, 1),
        workspace: Rect::new(0, 1, 80, 22),
        status: Rect::new(0, 23, 80, 0),
        provider_selector: Rect::new(0, 0, 2, 1),
        active_target: None,
        provider_workspaces: vec![Rect::new(10, 0, 6, 1), Rect::new(2, 0, 8, 1)],
        panes: Some(WorkspacePanes {
            resources: Rect::new(0, 1, 10, 5),
            resource_panels: vec![Rect::new(0, 1, 10, 5)],
            resource_rows: vec![vec![(3, Rect::new(1, 2, 8, 1))]],
            details: Rect::new(10, 1, 20, 5),
            detail_content: Rect::new(11, 3, 18, 2),
            detail_views: vec![Rect::new(12, 2, 8, 1)],
            pane_boundary: Rect::new(9, 1, 2, 5),
        }),
        overlay: None,
        resource_shell: None,
    };

    assert_eq!(
        resolve_mouse(&layout, press(3, 0), None),
        Some(Command::ActivateProviderWorkspace(1))
    );
    assert_eq!(
        resolve_mouse(&layout, press(2, 2), None),
        Some(Command::SelectResource {
            panel: 0,
            resource: 3
        })
    );
    assert_eq!(
        resolve_mouse(&layout, press(13, 2), None),
        Some(Command::ActivateDetailView(0))
    );
    assert_eq!(
        resolve_mouse(&layout, press(14, 3), None),
        Some(Command::BeginDetailsSelection { line: 0, column: 3 })
    );
    assert_eq!(
        resolve_mouse(
            &layout,
            MouseInput {
                action: MouseAction::Drag,
                column: 16,
                row: 4,
            },
            None,
        ),
        Some(Command::ExtendDetailsSelection { line: 1, column: 5 })
    );
    assert_eq!(
        resolve_mouse(&layout, press(29, 5), None),
        Some(Command::FocusDetails)
    );
    assert_eq!(resolve_mouse(&layout, press(79, 23), None), None);
}

#[test]
fn mouse_detail_click_focuses_details_without_live_terminal() {
    let mut app = App::new();
    let layout = ScreenLayout {
        provider_bar: Rect::new(0, 0, 80, 0),
        workspace: Rect::new(0, 1, 80, 22),
        status: Rect::new(0, 23, 80, 0),
        provider_selector: Rect::new(0, 0, 0, 0),
        active_target: None,
        provider_workspaces: Vec::new(),
        panes: Some(WorkspacePanes {
            resources: Rect::new(0, 1, 0, 0),
            resource_panels: Vec::new(),
            resource_rows: Vec::new(),
            details: Rect::new(0, 1, 0, 0),
            detail_content: Rect::default(),
            detail_views: vec![Rect::new(0, 0, 8, 1)],
            pane_boundary: Rect::new(0, 1, 0, 0),
        }),
        overlay: None,
        resource_shell: None,
    };
    handle_mouse(
        &mut app,
        mouse(TerminalMouseKind::Down(TerminalButton::Left), 1, 0),
        Some(&layout),
    );
    assert_eq!(app.state().focused_pane, FocusedPane::Details);
}

#[test]
fn normalizes_click_and_wheel_but_ignores_motion_and_release() {
    let click = mouse_from_event(mouse(TerminalMouseKind::Down(TerminalButton::Left), 4, 8));
    assert_eq!(
        click,
        Some(MouseInput {
            action: MouseAction::Press,
            column: 4,
            row: 8,
        })
    );
    assert_eq!(
        mouse_from_event(mouse(TerminalMouseKind::ScrollDown, 4, 8)).map(|input| input.action),
        Some(MouseAction::ScrollDown)
    );
    assert_eq!(mouse_from_event(mouse(TerminalMouseKind::Moved, 4, 8)), None);
}

#[test]
fn an_empty_screen_routes_only_the_providers_pane() {
    let layout = ScreenLayout::measure(&AppState::default(), screen());

    assert_eq!(
        resolve_mouse(&layout, press(0, 0), None),
        Some(Command::FocusProviders)
    );
    assert_eq!(resolve_mouse(&layout, press(79, 23), None), None);
}

#[test]
fn the_wheel_over_blank_space_resolves_to_nothing() {
    let layout = ScreenLayout::measure(&AppState::default(), screen());

    assert_eq!(
        resolve_mouse(
            &layout,
            MouseInput {
                action: MouseAction::ScrollDown,
                column: 79,
                row: 23,
            },
            None
        ),
        None
    );
}
