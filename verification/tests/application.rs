//! The application state machine.

use tuivir::application::{
    App, AppEvent, Command, CommandScope, DetailContent, DetailView, FocusedPane, PaneBoundary,
    ProviderRequest, ProviderRequestId, Resource, ResourceCommand, ResourceDetails, ResourcePanel,
    ResourceShellEffect, ResourceShellPresentation, ResourceShellProcess,
    ResourceShellSessionLifecycle, WorkspaceError, WorkspacePresentation, WorkspaceSnapshot,
};
use tuivir::domain::{
    Provider, ProviderId, ResourceId, ResourcePanelId, ResourceState, TargetEnvironment,
};
use tuivir::host::event_loop::{
    detail_due, handle_key, key_pressed, pasted, pointer_moved,
    resource_shell_output_requires_redraw, selection_copied, shell_runtime_event,
    shell_start_ended, KeyStep, PointerStep, ResourceShellInputModes, ResourceShellRuntimeEvent,
    ShellControl,
};
use tuivir::host::dispatch::DetailDispatchQueue;
use tuivir::host::shell_input::ShellInputRouter;
use tuivir::infrastructure::pane_boundary_state::{load, save, state_path, Env};
use tuivir::infrastructure::provider::ProviderDiscovery;
use tuivir::presentation::geometry::Rect;
use tuivir::presentation::input::{
    TerminalButton, TerminalKey, TerminalKeyCode, TerminalModifiers, TerminalMouse,
    TerminalMouseKind,
};
use tuivir::presentation::ScreenLayout;
use tuivir::steps::{clamp_step, ring_step};

const COMMANDS: &[ResourceCommand] = &[ResourceCommand::Stop, ResourceCommand::Delete];

fn resource(id: &str) -> Resource {
    Resource {
        id: ResourceId::new(id),
        name: id.to_owned(),
        secondary_text: None,
        status: Some("running".to_owned()),
        state: Some(ResourceState::Running),
        fields: vec![("Image", "nginx".to_owned())],
        snapshot_details: Vec::new(),
        available_commands: COMMANDS,
        shell: Some(ResourceShellProcess::new("docker", &["exec", id])),
    }
}

fn snapshot(ids: &[&str]) -> WorkspaceSnapshot {
    WorkspaceSnapshot {
        panels: vec![
            ResourcePanel {
                id: ResourcePanelId::new("containers"),
                title: "Containers".to_owned(),
                detail_views: vec![
                    DetailView::new("logs", "Logs"),
                    DetailView::new("stats", "Stats"),
                ],
                resources: ids.iter().map(|id| resource(id)).collect(),
            },
            ResourcePanel {
                id: ResourcePanelId::new("images"),
                title: "Images".to_owned(),
                detail_views: vec![DetailView::new("inspect", "Inspect")],
                resources: vec![resource("image")],
            },
        ],
    }
}

fn discovery(id: &str) -> AppEvent {
    ProviderDiscovery::new(
        Provider::new(
            ProviderId::new(id),
            id,
            Some(TargetEnvironment::new("here")),
            None,
        ),
        None,
    )
    .into_event()
}

fn refresh_of(requests: Vec<ProviderRequest>) -> (ProviderRequestId, ProviderId) {
    for request in requests {
        if let ProviderRequest::RefreshWorkspace {
            request_id,
            provider_id,
        } = request
        {
            return (request_id, provider_id);
        }
    }
    panic!("no refresh was asked for");
}

fn complete(app: &mut App, requests: Vec<ProviderRequest>, snapshot: WorkspaceSnapshot) {
    let (request_id, provider_id) = refresh_of(requests);
    app.update(AppEvent::RefreshCompleted {
        request_id,
        provider_id,
        result: Ok(snapshot),
    });
}

fn loaded(ids: &[&str]) -> App {
    let mut app = App::new();
    let requests = app.update(discovery("docker"));
    complete(&mut app, requests, snapshot(ids));
    app
}

fn selected(app: &App) -> String {
    let workspace = app.state().active_workspace().expect("a Workspace");
    workspace
        .selected_resource()
        .map(|resource| resource.name.clone())
        .unwrap_or_default()
}

fn detail_load(requests: &[ProviderRequest]) -> Option<String> {
    requests.iter().find_map(|request| match request {
        ProviderRequest::LoadResourceDetails { view_id, .. } => {
            Some(view_id.as_str().to_owned())
        }
        _ => None,
    })
}

#[test]
fn the_first_provider_becomes_active_and_is_refreshed() {
    let mut app = App::new();
    let first = app.update(discovery("docker"));
    assert_eq!(refresh_of(first).1, ProviderId::new("docker"));
    assert!(app.update(discovery("incus")).is_empty());
    assert_eq!(app.state().active_provider, Some(0));
    assert_eq!(app.state().providers.len(), 2);
    assert!(
        app.update(AppEvent::RefreshTimerElapsed).is_empty(),
        "one refresh at a time"
    );
}

#[test]
fn a_left_workspace_refuses_its_refreshes() {
    let mut app = App::new();
    let first = app.update(discovery("docker"));
    app.update(discovery("incus"));
    let second = app.invoke(Command::NextWorkspace);
    assert_eq!(refresh_of(second).1, ProviderId::new("incus"));
    complete(&mut app, first, snapshot(&["a"]));
    app.invoke(Command::PreviousWorkspace);
    assert!(matches!(
        app.state()
            .active_workspace()
            .expect("docker")
            .presentation(),
        WorkspacePresentation::Loading { .. }
    ));
}

#[test]
fn selections_clamp_at_the_ends_and_survive_a_refresh() {
    let mut app = loaded(&["a", "b", "c"]);
    assert_eq!(selected(&app), "a");
    app.invoke(Command::SelectPrevious);
    assert_eq!(selected(&app), "a");
    app.invoke(Command::SelectNext);
    assert_eq!(selected(&app), "b");
    app.invoke(Command::SelectNextFast);
    assert_eq!(selected(&app), "c");
    app.invoke(Command::SelectPrevious);
    let requests = app.update(AppEvent::RefreshTimerElapsed);
    complete(&mut app, requests, snapshot(&["x", "b", "a"]));
    assert_eq!(selected(&app), "b");
    let requests = app.invoke(Command::Refresh);
    complete(&mut app, requests, snapshot(&["x", "a"]));
    assert_ne!(selected(&app), "b");
}

#[test]
fn providers_are_a_ring() {
    let mut app = App::new();
    app.update(discovery("docker"));
    app.update(discovery("incus"));
    app.invoke(Command::PreviousWorkspace);
    assert_eq!(app.state().active_provider, Some(1));
    app.invoke(Command::NextWorkspace);
    assert_eq!(app.state().active_provider, Some(0));
    assert_eq!(ring_step(0, -1, 3), 2);
    assert_eq!(ring_step(2, 1, 3), 0);
    assert_eq!(clamp_step(2, 5, 4), 4);
    assert_eq!(clamp_step(2, -5, 4), 0);
}

#[test]
fn tabs_load_only_what_is_on_the_screen() {
    let mut app = loaded(&["a"]);
    let logs = app.invoke(Command::NextDetailView);
    assert_eq!(detail_load(&logs).as_deref(), Some("logs"));
    let stats = app.invoke(Command::NextDetailView);
    assert_eq!(detail_load(&stats).as_deref(), Some("stats"));
    assert!(!app.detail_request_is_current(&logs[0]));
    assert!(app.detail_request_is_current(&stats[0]));

    let mut requests = stats.into_iter();
    let Some(ProviderRequest::LoadResourceDetails {
        request_id,
        provider_id,
        target,
        view_id,
    }) = requests.next()
    else {
        panic!("a load");
    };
    app.update(AppEvent::ResourceDetailsCompleted {
        request_id,
        provider_id,
        target,
        view_id,
        result: Ok(ResourceDetails::from_output("one\ntwo\n")),
    });
    let workspace = app.state().active_workspace().expect("a Workspace");
    let WorkspacePresentation::Ready(view) = workspace.presentation() else {
        panic!("a loaded Workspace");
    };
    let details = view.details.expect("details");
    assert!(matches!(
        details.content,
        DetailContent::Ready(details) if details.lines == ["one", "two"]
    ));
    assert!(detail_load(&app.invoke(Command::PreviousDetailView)).is_some());
    assert!(
        app.invoke(Command::PreviousDetailView).is_empty(),
        "the Overview comes from the snapshot"
    );
}

#[test]
fn a_stale_load_is_dropped() {
    let mut app = loaded(&["a"]);
    let logs = app.invoke(Command::NextDetailView);
    app.invoke(Command::NextDetailView);
    for request in logs {
        if let ProviderRequest::LoadResourceDetails {
            request_id,
            provider_id,
            target,
            view_id,
        } = request
        {
            app.update(AppEvent::ResourceDetailsCompleted {
                request_id,
                provider_id,
                target,
                view_id,
                result: Err(WorkspaceError::new("late")),
            });
        }
    }
    let workspace = app.state().active_workspace().expect("a Workspace");
    let WorkspacePresentation::Ready(view) = workspace.presentation() else {
        panic!("a loaded Workspace");
    };
    assert!(matches!(
        view.details.expect("details").content,
        DetailContent::Loading
    ));
}

#[test]
fn deleting_asks_first_and_other_commands_do_not() {
    let mut app = loaded(&["a"]);
    assert!(app
        .invoke(Command::Resource(ResourceCommand::Delete))
        .is_empty());
    assert_eq!(app.active_scope(), CommandScope::Confirmation);
    app.invoke(Command::Cancel);
    assert_eq!(app.active_scope(), CommandScope::ResourcePanel(0));
    app.invoke(Command::Resource(ResourceCommand::Delete));
    let requests = app.invoke(Command::Confirm);
    assert!(matches!(
        requests[0],
        ProviderRequest::ExecuteResourceCommand {
            command: ResourceCommand::Delete,
            state: Some(ResourceState::Running),
            ..
        }
    ));
    assert_eq!(app.state().running_commands.len(), 1);
    assert!(
        app.invoke(Command::Resource(ResourceCommand::Restart))
            .is_empty(),
        "an unavailable Command does nothing"
    );
}

#[test]
fn a_failed_command_is_reported_until_it_is_dismissed() {
    let mut app = loaded(&["a"]);
    let requests = app.invoke(Command::Resource(ResourceCommand::Stop));
    for request in requests {
        if let ProviderRequest::ExecuteResourceCommand {
            request_id,
            provider_id,
            target,
            command,
            ..
        } = request
        {
            app.update(AppEvent::ResourceCommandCompleted {
                request_id,
                provider_id,
                target,
                command,
                result: Err(WorkspaceError::new("denied")),
            });
        }
    }
    assert_eq!(
        app.state().command_error.as_deref(),
        Some("docker stop failed for a (a): denied")
    );
    assert!(app.state().running_commands.is_empty());
    assert_eq!(app.active_scope(), CommandScope::CommandFailure);
    app.invoke(Command::Cancel);
    assert!(app.state().command_error.is_none());
}

#[test]
fn focus_moves_through_every_pane_and_back() {
    let mut app = loaded(&["a"]);
    let start = app.state().focused_pane;
    assert_eq!(start, FocusedPane::Resources);
    for _ in 0..4 {
        app.invoke(Command::FocusNextPane);
    }
    assert_eq!(app.state().focused_pane, start);
    app.invoke(Command::FocusResourcePanel(1));
    assert_eq!(app.active_scope(), CommandScope::ResourcePanel(1));
    assert_eq!(selected(&app), "image");
    app.invoke(Command::FocusDetails);
    assert_eq!(app.active_scope(), CommandScope::Details);
    app.invoke(Command::FocusProviders);
    assert_eq!(app.active_scope(), CommandScope::ProviderSelector);
}

#[test]
fn only_quit_leaves() {
    let mut app = loaded(&["a"]);
    app.invoke(Command::ToggleHelp);
    assert!(!app.quit_is_ready());
    app.invoke(Command::Quit);
    assert!(app.quit_is_ready());
    let mut app = loaded(&["a"]);
    let (control, _) = handle_key(
        &mut app,
        TerminalKey::new(TerminalKeyCode::Char('c'), TerminalModifiers::control()),
    );
    assert_eq!(control, ShellControl::Quit);
}

#[test]
fn too_many_panels_are_refused() {
    let mut app = App::new();
    let requests = app.update(discovery("docker"));
    let panels = (0..10)
        .map(|panel| ResourcePanel {
            id: ResourcePanelId::new(&format!("{panel}")),
            title: String::new(),
            detail_views: Vec::new(),
            resources: Vec::new(),
        })
        .collect();
    complete(&mut app, requests, WorkspaceSnapshot { panels });
    let workspace = app.state().active_workspace().expect("docker");
    let WorkspacePresentation::Error { error, .. } = workspace.presentation() else {
        panic!("refused");
    };
    assert_eq!(
        error.message,
        "docker returned 10 Resource Panels; Tuivir supports at most 9 Resource Panels so each \
         retains a numbered focus Command"
    );
}

fn key(code: TerminalKeyCode) -> TerminalKey {
    TerminalKey::new(code, TerminalModifiers::none())
}

fn running_session() -> App {
    let mut app = loaded(&["a"]);
    app.invoke(Command::OpenShell);
    let effects = app.take_resource_shell_effects();
    assert_eq!(effects.len(), 1);
    let ResourceShellEffect::Start { session, process } = &effects[0];
    assert_eq!(process.program(), "docker");
    shell_start_ended(&mut app, session.id, None);
    app
}

#[test]
fn a_session_is_opened_once_and_keeps_running_while_hidden() {
    let mut app = running_session();
    let id = app.state().resource_shell_sessions[0].id;
    assert!(matches!(
        app.state().resource_shell_sessions[0].lifecycle,
        ResourceShellSessionLifecycle::Running
    ));
    app.invoke(Command::OpenShell);
    assert!(app.take_resource_shell_effects().is_empty());
    assert!(resource_shell_output_requires_redraw(&app, id));
    app.invoke(Command::ActivateDetailView(0));
    assert!(!resource_shell_output_requires_redraw(&app, id));
    assert_eq!(app.state().resource_shell_sessions.len(), 1);
    let (requests, redraw) =
        shell_runtime_event(&mut app, ResourceShellRuntimeEvent::OutputReady { session_id: id });
    assert!(requests.is_empty() && !redraw);
}

#[test]
fn a_failed_start_says_why() {
    let mut app = loaded(&["a"]);
    app.invoke(Command::OpenShell);
    let id = app.state().resource_shell_sessions[0].id;
    shell_start_ended(&mut app, id, Some("no pty".to_owned()));
    assert!(matches!(
        &app.state().resource_shell_sessions[0].lifecycle,
        ResourceShellSessionLifecycle::StartFailed(reason) if reason == "no pty"
    ));
}

#[test]
fn an_exited_session_wakes_the_renderer() {
    let mut app = running_session();
    let id = app.state().resource_shell_sessions[0].id;
    let (_, redraw) =
        shell_runtime_event(&mut app, ResourceShellRuntimeEvent::Exited { session_id: id });
    assert!(redraw);
    assert!(app
        .state()
        .visible_running_resource_shell_session()
        .is_none());
}

#[test]
fn keys_reach_the_visible_session_and_its_controls_reach_tuivir() {
    let mut app = running_session();
    let id = app.state().resource_shell_sessions[0].id;
    let mut router = ShellInputRouter::default();
    let ctrl = |character| {
        TerminalKey::new(TerminalKeyCode::Char(character), TerminalModifiers::control())
    };
    assert_eq!(
        key_pressed(&mut app, &mut router, ctrl('c')),
        KeyStep::Write {
            session_id: id,
            bytes: vec![3]
        }
    );
    assert!(!app.quit_is_ready());
    let _ = key_pressed(&mut app, &mut router, ctrl('b'));
    let _ = key_pressed(&mut app, &mut router, key(TerminalKeyCode::Char('q')));
    assert_eq!(
        app.state().resource_shell_presentation,
        ResourceShellPresentation::Details
    );
    assert_eq!(
        key_pressed(&mut app, &mut router, ctrl('c')),
        KeyStep::Settled {
            control: ShellControl::Quit,
            requests: Vec::new()
        }
    );
}

#[test]
fn copying_takes_the_sessions_selection_first() {
    let mut app = running_session();
    let id = app.state().resource_shell_sessions[0].id;
    app.invoke(Command::FocusDetails);
    let mut router = ShellInputRouter::default();
    for (code, modifiers) in [
        ('b', TerminalModifiers::control()),
        ('q', TerminalModifiers::none()),
    ] {
        let event = TerminalKey::new(TerminalKeyCode::Char(code), modifiers);
        let _ = key_pressed(&mut app, &mut router, event);
    }
    assert_eq!(
        key_pressed(&mut app, &mut router, key(TerminalKeyCode::Char('y'))),
        KeyStep::CopySelection { session_id: id }
    );
    let (text, control, requests) = selection_copied(&mut app, Some("text".to_owned()));
    assert_eq!(text.as_deref(), Some("text"));
    assert_eq!(control, ShellControl::Continue);
    assert!(requests.is_empty());
}

#[test]
fn the_pointer_and_pastes_reach_the_visible_session() {
    let mut app = running_session();
    let id = app.state().resource_shell_sessions[0].id;
    let layout = ScreenLayout::measure(app.state(), Rect::new(0, 0, 80, 24));
    let terminal = layout.resource_shell.expect("a terminal").terminal;
    let mut router = ShellInputRouter::default();
    let wheel = TerminalMouse {
        kind: TerminalMouseKind::ScrollUp,
        column: terminal.x,
        row: terminal.y,
        modifiers: TerminalModifiers::none(),
    };
    let modes = ResourceShellInputModes {
        bracketed_paste: true,
        mouse_reporting: false,
        sgr_mouse: false,
    };
    assert_eq!(
        pointer_moved(&mut app, &mut router, wheel, Some(&layout), Some(modes)),
        PointerStep::Scroll {
            session_id: id,
            lines: 3
        }
    );
    let mut router = ShellInputRouter::default();
    assert_eq!(
        pasted(&app, &mut router, "x", Some(modes)),
        Some((id, b"\x1b[200~x\x1b[201~".to_vec()))
    );
    let click = TerminalMouse {
        kind: TerminalMouseKind::Down(TerminalButton::Left),
        column: 0,
        row: 0,
        modifiers: TerminalModifiers::none(),
    };
    assert_eq!(
        pointer_moved(&mut app, &mut router, click, None, None),
        PointerStep::Settled {
            requests: Vec::new()
        }
    );
}

#[test]
fn a_deferred_load_starts_only_while_it_is_current() {
    let mut app = loaded(&["a"]);
    let mut queue = DetailDispatchQueue::new(75);
    let requests = app.invoke(Command::NextDetailView);
    assert!(queue.accept_all(0, requests).is_empty());
    assert_eq!(queue.deadline(), Some(75));
    assert!(detail_due(&app, &mut queue, 74).is_none());
    assert!(detail_due(&app, &mut queue, 75).is_some());

    let requests = app.invoke(Command::NextDetailView);
    queue.accept_all(100, requests);
    app.invoke(Command::ActivateDetailView(0));
    assert!(detail_due(&app, &mut queue, 500).is_none());
    assert_eq!(queue.deadline(), None);
}

#[test]
fn the_boundary_stays_usable_and_moves_back() {
    let boundary = PaneBoundary::default();
    assert_eq!(boundary.resources_percent(), 48);
    assert_eq!(
        boundary.moved_left().moved_right().resources_percent(),
        boundary.resources_percent()
    );
    assert_eq!(PaneBoundary::new(5).resources_percent(), 25);
    assert_eq!(PaneBoundary::new(99).resources_percent(), 75);
    assert!(!PaneBoundary::is_valid_percent(24));
    assert!(PaneBoundary::is_valid_percent(75));
}

#[test]
fn a_saved_boundary_is_restored() {
    let env = Env {
        xdg_state_home: Some("/state".to_owned()),
        home: Some("/home/me".to_owned()),
    };
    let write = save(&env, PaneBoundary::new(61)).expect("a place");
    assert_eq!(write.path, "/state/tuivir/pane-boundary.json");
    assert_eq!(write.contents, "{\"resources_percent\":61}");
    assert_eq!(load(Some(61)).resources_percent(), 61);
    assert_eq!(load(Some(80)).resources_percent(), 48);
    assert_eq!(load(None).resources_percent(), 48);
    let relative = Env {
        xdg_state_home: Some("state".to_owned()),
        home: Some("/home/me".to_owned()),
    };
    assert_eq!(
        state_path(&relative).as_deref(),
        Some("/home/me/.local/state/tuivir/pane-boundary.json")
    );
    assert_eq!(state_path(&Env::default()), None);
    assert!(save(&Env::default(), PaneBoundary::new(61)).is_none());
}

fn only_load(requests: Vec<ProviderRequest>) -> ProviderRequest {
    requests
        .into_iter()
        .find(|request| matches!(request, ProviderRequest::LoadResourceDetails { .. }))
        .expect("a Detail View is asked for")
}

fn completion(request: &ProviderRequest, output: &str) -> AppEvent {
    match request.clone() {
        ProviderRequest::LoadResourceDetails {
            request_id,
            provider_id,
            target,
            view_id,
        } => AppEvent::ResourceDetailsCompleted {
            request_id,
            provider_id,
            target,
            view_id,
            result: Ok(ResourceDetails::from_output(output)),
        },
        _ => panic!("no Detail View"),
    }
}

#[test]
fn a_detail_request_is_current_until_it_is_completed() {
    let mut app = loaded(&["a"]);
    let request = only_load(app.invoke(Command::NextDetailView));
    assert!(app.detail_request_is_current(&request));
    let refresh = ProviderRequest::RefreshWorkspace {
        request_id: ProviderRequestId::new(2),
        provider_id: ProviderId::new("docker"),
    };
    assert!(!app.detail_request_is_current(&refresh));
    let ProviderRequest::LoadResourceDetails {
        provider_id,
        target,
        view_id,
        ..
    } = request.clone()
    else {
        panic!("a load");
    };
    let renumbered = ProviderRequest::LoadResourceDetails {
        request_id: ProviderRequestId::new(99),
        provider_id,
        target,
        view_id,
    };
    assert!(!app.detail_request_is_current(&renumbered));
    app.invoke(Command::FocusDetails);
    app.update(AppEvent::RefreshTimerElapsed);
    assert!(app.detail_request_is_current(&request));
    app.update(completion(&request, "done"));
    assert!(!app.detail_request_is_current(&request));
}

#[test]
fn a_detail_request_ends_with_its_workspace() {
    let mut app = loaded(&["a"]);
    app.update(discovery("incus"));
    let request = only_load(app.invoke(Command::NextDetailView));
    app.invoke(Command::NextWorkspace);
    assert!(!app.detail_request_is_current(&request));
    let again = app.invoke(Command::PreviousWorkspace);
    assert!(!app.detail_request_is_current(&request));
    assert!(app.detail_request_is_current(&only_load(again)));
}

fn selected_text(app: &mut App, from: (u16, u16), to: (u16, u16)) -> Option<String> {
    app.invoke(Command::BeginDetailsSelection {
        line: from.0,
        column: from.1,
    });
    app.invoke(Command::ExtendDetailsSelection {
        line: to.0,
        column: to.1,
    });
    app.invoke(Command::CopyDetails);
    app.take_pending_details_copy()
}

#[test]
fn selected_text_reads_between_its_ends_from_either_side() {
    let mut app = loaded(&["a"]);
    let request = only_load(app.invoke(Command::NextDetailView));
    app.update(completion(&request, "first\nsecond\nthird\n"));
    for (from, to, text) in [
        ((0, 2), (2, 3), Some("rst\nsecond\nthi")),
        ((1, 1), (1, 4), Some("eco")),
        ((0, 0), (1, 0), Some("first\n")),
        ((0, 5), (0, 90), None),
        ((1, 3), (1, 3), None),
    ] {
        assert_eq!(selected_text(&mut app, from, to).as_deref(), text);
        assert_eq!(selected_text(&mut app, to, from).as_deref(), text);
    }
}

#[test]
fn every_started_session_has_an_identity_of_its_own() {
    let mut app = loaded(&["a", "b"]);
    let mut started = Vec::new();
    for command in [Command::OpenShell, Command::SelectNext, Command::OpenShell] {
        if command == Command::SelectNext {
            app.invoke(Command::FocusResourcePanel(0));
        }
        app.invoke(command);
    }
    for effect in app.take_resource_shell_effects() {
        let ResourceShellEffect::Start { session, .. } = effect;
        started.push(session.id);
    }
    assert!(app.take_resource_shell_effects().is_empty());
    app.update(AppEvent::ResourceShellExited {
        session_id: started[1],
    });
    app.invoke(Command::StartResourceShell);
    for effect in app.take_resource_shell_effects() {
        let ResourceShellEffect::Start { session, .. } = effect;
        started.push(session.id);
    }
    let identities: Vec<u64> = started.iter().map(|id| id.value()).collect();
    assert_eq!(identities, [1, 2, 3]);
}

#[test]
fn providers_stay_in_discovery_order() {
    let mut app = App::new();
    assert_eq!(app.state().active_provider, None);
    for id in ["incus", "docker", "docker-sandbox"] {
        app.update(discovery(id));
        app.invoke(Command::NextWorkspace);
        app.invoke(Command::ActivateProviderWorkspace(9));
    }
    let listed: Vec<&str> = app
        .state()
        .providers
        .iter()
        .map(|provider| provider.name())
        .collect();
    assert_eq!(listed, ["incus", "docker", "docker-sandbox"]);
    assert!(app.state().active_provider.expect("an active one") < 3);
}

#[test]
fn cancelling_a_deletion_sends_nothing() {
    let mut app = loaded(&["a"]);
    app.invoke(Command::Resource(ResourceCommand::Delete));
    assert!(app.invoke(Command::Cancel).is_empty());
    assert!(app.state().confirmation.is_none());
    assert!(app.state().running_commands.is_empty());
    assert!(app.invoke(Command::Confirm).is_empty());
}
