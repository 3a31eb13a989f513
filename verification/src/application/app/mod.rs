//! The single-owner application state machine.

use vstd::prelude::*;
use vstd::string::*;

use super::command::defaults::{builtin_commands, NUMBERED_RESOURCE_PANEL_CAPACITY};
use super::command::{
    emergency_quit, offered_in, resolved, Command, CommandModel, CommandRegistry, CommandScope,
    EffectiveCommand, ResourceCommand,
};
use super::key::Key;
use super::pane_boundary::{default_boundary, PaneBoundary};
use super::provider::{
    PanelModel, ProviderRequest, ProviderRequestId, RequestModel, Resource, ResourceDetails,
    WorkspaceError, WorkspaceSnapshot,
};
use super::shell::{
    ResourceShellEffect, ResourceShellPresentation, ResourceShellProcess, ResourceShellSession,
    ResourceShellSessionId, ResourceShellSessionLifecycle,
};
use super::workspace::model::{CompletionModel, DetailTargetModel, LoadRequestModel};
use super::workspace::{result_view, DetailCompletion, ProviderWorkspaceState};
use crate::domain::{DetailViewId, Provider, ProviderId, ResourceTarget};
use crate::steps::ring_step;
use crate::text::{
    first_position, lemma_first_position_found, lemma_first_position_none, opt_view, push_decimal,
    views,
};

pub mod command_laws;
pub mod detail_laws;
pub mod effect_laws;
pub mod help_laws;
pub mod history_laws;
pub mod laws;
pub mod loading_laws;
pub mod model;
pub mod reading_laws;
pub mod ring_laws;
pub mod shell_laws;
pub mod state;
pub mod step_laws;

use model::{
    at_most, bar_candidates, bar_entry, command_bar_of, failure_text, has_live_session,
    help_entries, help_entry, is_available, panel_overflow_text, pending_ids, pending_providers,
    pending_without, provider_ids, running_keys, session_ids, sessions_without, AppModel,
    EventModel, COMMAND_BAR_ENTRIES, DETAIL_SCROLL_LINES, FAST_SELECTION_STEP,
};
use state::{
    AppState, FocusedPane, HelpEntry, HelpEntryModel, HelpOverlay, KeyHints,
    ResourceCommandInvocation, RunningResourceCommand, StateModel,
};

verus! {

/// Facts the application receives: provider discovery, the refresh clock, and
/// asynchronous completions.
///
/// User intentions are [`Command`]s, resolved from keys, not events. Keeping
/// the two separate means a keypress never looks like a completed refresh.
#[allow(inconsistent_fields)]
pub enum AppEvent {
    ProviderDiscovered { provider: Provider, error: Option<WorkspaceError> },
    RefreshTimerElapsed,
    /// The result of an earlier [`ProviderRequest::RefreshWorkspace`].
    ///
    /// The application verifies the request is still pending before accepting
    /// this event.
    RefreshCompleted {
        request_id: ProviderRequestId,
        provider_id: ProviderId,
        result: Result<WorkspaceSnapshot, WorkspaceError>,
    },
    /// The host created the live PTY runtime for this application-owned
    /// Resource Shell Session identity.
    ResourceShellStarted { session_id: ResourceShellSessionId },
    /// The host could not create the PTY or provider process. The session
    /// remains visible so it can be started again.
    ResourceShellStartFailed { session_id: ResourceShellSessionId, reason: String },
    /// The private child process ended after it had started.
    ResourceShellExited { session_id: ResourceShellSessionId },
    ResourceCommandCompleted {
        request_id: ProviderRequestId,
        provider_id: ProviderId,
        target: ResourceTarget,
        command: ResourceCommand,
        result: Result<(), WorkspaceError>,
    },
    /// The result of an earlier [`ProviderRequest::LoadResourceDetails`].
    ///
    /// Accepted only while its request is still the pending one for the visible
    /// Resource and view, so a result the user has navigated away from is
    /// dropped rather than rendered.
    ResourceDetailsCompleted {
        request_id: ProviderRequestId,
        provider_id: ProviderId,
        target: ResourceTarget,
        view_id: DetailViewId,
        result: Result<ResourceDetails, WorkspaceError>,
    },
}

pub open spec fn snapshot_result_view(result: Result<WorkspaceSnapshot, WorkspaceError>) -> Result<
    Seq<PanelModel>,
    Seq<char>,
> {
    match result {
        Ok(snapshot) => Ok(snapshot@),
        Err(error) => Err(error@),
    }
}

pub open spec fn command_result_view(result: Result<(), WorkspaceError>) -> Result<(), Seq<char>> {
    match result {
        Ok(done) => Ok(done),
        Err(error) => Err(error@),
    }
}

impl View for AppEvent {
    type V = EventModel;

    open spec fn view(&self) -> EventModel {
        match self {
            AppEvent::ProviderDiscovered { provider, error } => EventModel::ProviderDiscovered {
                provider: provider@,
                error: opt_view(*error),
            },
            AppEvent::RefreshTimerElapsed => EventModel::RefreshTimerElapsed,
            AppEvent::RefreshCompleted {
                request_id,
                provider_id,
                result,
            } => EventModel::RefreshCompleted {
                request_id: *request_id,
                provider_id: provider_id@,
                result: snapshot_result_view(*result),
            },
            AppEvent::ResourceShellStarted { session_id } => EventModel::ResourceShellStarted {
                session_id: *session_id,
            },
            AppEvent::ResourceShellStartFailed {
                session_id,
                reason,
            } => EventModel::ResourceShellStartFailed { session_id: *session_id, reason: reason@ },
            AppEvent::ResourceShellExited { session_id } => EventModel::ResourceShellExited {
                session_id: *session_id,
            },
            AppEvent::ResourceCommandCompleted {
                request_id,
                provider_id,
                target,
                command,
                result,
            } => EventModel::ResourceCommandCompleted {
                request_id: *request_id,
                provider_id: provider_id@,
                target: target@,
                command: *command,
                result: command_result_view(*result),
            },
            AppEvent::ResourceDetailsCompleted {
                request_id,
                provider_id,
                target,
                view_id,
                result,
            } => EventModel::ResourceDetailsCompleted {
                request_id: *request_id,
                provider_id: provider_id@,
                target: target@,
                view_id: view_id@,
                result: result_view(*result),
            },
        }
    }
}

/// One sentence for every operation Tuivir asked a Provider for and did not
/// get.
///
/// Lifecycle Commands and Resource Shells fail in different places and are
/// worded by different code, but they identify their target the same way, so
/// the user reads one sentence rather than two dialects of one.
fn operation_failure(
    provider_name: &str,
    operation: &str,
    resource_name: &str,
    target: &ResourceTarget,
    reason: &str,
) -> (text: String)
    ensures
        text@ == failure_text(provider_name@, operation@, resource_name@, target@, reason@),
{
    let mut text = provider_name.to_owned();
    text.append(" ");
    text.append(operation);
    text.append(" failed for ");
    text.append(resource_name);
    text.append(" (");
    text.append(target.as_str());
    text.append("): ");
    text.append(reason);
    text
}

fn panel_overflow(provider_name: &str, count: usize) -> (text: String)
    ensures
        text@ == panel_overflow_text(provider_name@, count as nat),
{
    let mut text = provider_name.to_owned();
    text.append(" returned ");
    push_decimal(&mut text, count as u64);
    text.append(" Resource Panels; Tuivir supports at most ");
    push_decimal(&mut text, NUMBERED_RESOURCE_PANEL_CAPACITY as u64);
    text.append(" Resource Panels so each retains a numbered focus Command");
    text
}

/// The single owner of application state.
pub struct App {
    state: AppState,
    commands: CommandRegistry,
    /// Monotonically allocates request IDs in the main event loop.
    next_request_id: u64,
    /// Refresh requests whose snapshots may still update their Provider
    /// Workspace.
    ///
    /// Removing an entry invalidates a background snapshot without needing
    /// shared mutable state or cancellation handles in `AppState`. Navigating
    /// away from a Provider Workspace drops its entries so a stale snapshot
    /// cannot overwrite newer application state.
    pending_refreshes: Vec<(ProviderRequestId, ProviderId)>,
    /// The preference at the start of the current drag, if any.
    pane_boundary_before_drag: Option<PaneBoundary>,
    /// A completed user resize for the host to persist outside application
    /// state, following the same effect-taking pattern as clipboard work.
    pending_pane_boundary_save: Option<PaneBoundary>,
    next_resource_shell_session_id: u64,
    pending_resource_shell_effects: Vec<ResourceShellEffect>,
    quit_requested: bool,
}

pub open spec fn pending_view(pending: Seq<(ProviderRequestId, ProviderId)>) -> Seq<
    (ProviderRequestId, Seq<char>),
> {
    pending.map_values(|entry: (ProviderRequestId, ProviderId)| (entry.0, entry.1@))
}

impl View for App {
    type V = AppModel;

    closed spec fn view(&self) -> AppModel {
        AppModel {
            state: self.state@,
            commands: self.commands@,
            next_request_id: self.next_request_id,
            pending_refreshes: pending_view(self.pending_refreshes@),
            boundary_before_drag: opt_view(self.pane_boundary_before_drag),
            pending_boundary_save: opt_view(self.pending_pane_boundary_save),
            next_session_id: self.next_resource_shell_session_id,
            pending_effects: views(self.pending_resource_shell_effects@),
            quit_requested: self.quit_requested,
        }
    }
}

impl Default for App {
    fn default() -> (app: Self)
        ensures
            app@ == AppModel::initial(builtin_commands(), default_boundary()),
    {
        App::new()
    }
}

impl App {
    pub fn new() -> (app: Self)
        ensures
            app@ == AppModel::initial(builtin_commands(), default_boundary()),
    {
        App::with_registry(CommandRegistry::default())
    }

    /// Builds the application around an effective registry, projecting its
    /// first bindings into the state the renderer reads.
    pub fn with_registry(commands: CommandRegistry) -> (app: Self)
        ensures
            app@ == AppModel::initial(commands@, default_boundary()),
    {
        App::with_registry_and_pane_boundary(commands, PaneBoundary::default())
    }

    /// Builds the application with the durable Pane Boundary restored by the
    /// host before it owns the terminal.
    pub fn with_registry_and_pane_boundary(
        commands: CommandRegistry,
        pane_boundary: PaneBoundary,
    ) -> (app: Self)
        ensures
            app@ == AppModel::initial(commands@, pane_boundary@),
    {
        let hints = KeyHints::from_registry(&commands);
        let mut state = AppState::default();
        state.hints = hints;
        state.pane_boundary = pane_boundary;
        let app = App {
            state,
            commands,
            next_request_id: 1,
            pending_refreshes: Vec::new(),
            pane_boundary_before_drag: None,
            pending_pane_boundary_save: None,
            next_resource_shell_session_id: 1,
            pending_resource_shell_effects: Vec::new(),
            quit_requested: false,
        };
        assert(app@ =~= AppModel::initial(commands@, pane_boundary@));
        app
    }

    pub fn state(&self) -> (state: &AppState)
        ensures
            state@ == self@.state,
    {
        &self.state
    }

    /// Whether identities are left for the work of one more event or Command.
    pub fn can_allocate(&self) -> (left: bool)
        ensures
            left == self@.can_allocate(),
    {
        self.next_request_id <= u64::MAX - 2 && self.next_resource_shell_session_id < u64::MAX
    }

    /// Whether the user asked to leave.
    pub fn quit_is_ready(&self) -> (ready: bool)
        ensures
            ready == self@.quit_requested,
    {
        self.quit_requested
    }

    /// Confirms that a debounced Detail View Tab request still describes the
    /// visible load before the host starts Provider work for it.
    pub fn detail_request_is_current(&self, request: &ProviderRequest) -> (current: bool)
        ensures
            current == self@.detail_is_current(request@),
    {
        match request {
            ProviderRequest::LoadResourceDetails {
                request_id,
                provider_id,
                target,
                view_id,
            } => match self.state.active_workspace() {
                Some(workspace) => workspace.is_loading_detail(
                    *request_id,
                    provider_id,
                    target,
                    view_id,
                ),
                None => false,
            },
            _ => false,
        }
    }

    /// Applies one application event and returns any provider work to run.
    ///
    /// This method performs no I/O; the runtime executes returned requests and
    /// feeds their completions back as events.
    pub fn update(&mut self, event: AppEvent) -> (requests: Vec<ProviderRequest>)
        requires
            old(self)@.can_allocate(),
        ensures
            (final(self)@, views(requests@)) == old(self)@.updated(event@),
    {
        let ghost before = self@;
        let mut requests = self.apply(event);
        proof {
            laws::lemma_applying_allocates_at_most_one(before, event@);
        }
        self.follow_up(&mut requests);
        requests
    }

    /// Brings the details and the bar in line after a change.
    fn follow_up(&mut self, requests: &mut Vec<ProviderRequest>)
        requires
            old(self)@.next_request_id < u64::MAX,
        ensures
            (final(self)@, views(final(requests)@)) == AppModel::followed_up(
                (old(self)@, views(old(requests)@)),
            ),
    {
        let ghost earlier = views(requests@);
        let mut loads = self.sync_details();
        let ghost asked = views(loads@);
        requests.append(&mut loads);
        assert(views(requests@) =~= earlier + asked);
        self.update_command_bar();
    }

    fn apply(&mut self, event: AppEvent) -> (requests: Vec<ProviderRequest>)
        requires
            old(self)@.can_allocate(),
        ensures
            (final(self)@, views(requests@)) == old(self)@.applied(event@),
    {
        proof {
            reveal(AppModel::applied);
        }
        match event {
            AppEvent::ProviderDiscovered { provider, error } => self.handle_provider_discovered(
                provider,
                error,
            ),
            AppEvent::RefreshTimerElapsed => self.refresh_active_provider(),
            AppEvent::ResourceShellStarted { session_id } => {
                self.end_start(session_id, ResourceShellSessionLifecycle::Running);
                no_requests()
            },
            AppEvent::ResourceShellStartFailed { session_id, reason } => {
                self.end_start(session_id, ResourceShellSessionLifecycle::StartFailed(reason));
                no_requests()
            },
            AppEvent::ResourceShellExited { session_id } => self.apply_resource_shell_exited(
                session_id,
            ),
            AppEvent::RefreshCompleted { request_id, provider_id, result } => {
                self.apply_refresh_completed(request_id, provider_id, result);
                no_requests()
            },
            AppEvent::ResourceCommandCompleted {
                request_id,
                provider_id,
                target,
                command,
                result,
            } => self.apply_resource_command_result(
                request_id,
                provider_id,
                target,
                command,
                result,
            ),
            AppEvent::ResourceDetailsCompleted {
                request_id,
                provider_id,
                target,
                view_id,
                result,
            } => {
                self.apply_details_completed(request_id, provider_id, target, view_id, result);
                no_requests()
            },
        }
    }

    /// The structural Command Scope the interface is in right now.
    ///
    /// A modal replaces the ordinary workspace scope; otherwise the focused
    /// panel selects the workspace scope.
    pub fn active_scope(&self) -> (scope: CommandScope)
        ensures
            scope == self@.active_scope(),
    {
        if self.state.confirmation.is_some() {
            CommandScope::Confirmation
        } else if self.state.command_error.is_some() {
            CommandScope::CommandFailure
        } else if self.state.help_overlay.is_some() {
            CommandScope::HelpOverlay
        } else {
            match self.state.focused_pane {
                FocusedPane::Providers => CommandScope::ProviderSelector,
                FocusedPane::Resources => match self.state.active_workspace() {
                    Some(workspace) => match workspace.focused_resource_panel_index() {
                        Some(index) => CommandScope::ResourcePanel(index),
                        None => CommandScope::ResourceView,
                    },
                    None => CommandScope::ResourceView,
                },
                FocusedPane::Details => CommandScope::Details,
            }
        }
    }

    /// Resolves one pressed key against the effective registry in the active
    /// scope.
    pub fn resolve_command(&self, key: Key) -> (command: Option<Command>)
        ensures
            command == resolved(self@.commands, self@.active_scope(), key),
    {
        self.commands.resolve(self.active_scope(), key)
    }

    /// Resolves a key the registry reserves no matter the scope or the
    /// configuration: only the emergency Quit.
    pub fn reserved(&self, key: Key) -> (command: Option<Command>)
        ensures
            command == (if key == emergency_quit() {
                Some(Command::Quit)
            } else {
                None
            }),
    {
        self.commands.reserved(key)
    }

    /// Takes the exact selected text a Details Copy Command asked the host to
    /// place on the clipboard. The application never performs clipboard I/O.
    pub fn take_pending_details_copy(&mut self) -> (text: Option<String>)
        ensures
            opt_view(text) == old(self)@.state.pending_details_copy,
            final(self)@ == old(self)@.with_state(
                StateModel { pending_details_copy: None, ..old(self)@.state },
            ),
    {
        self.state.pending_details_copy.take()
    }

    /// Takes a completed Pane Boundary preference for the host to persist.
    pub fn take_pending_pane_boundary_save(&mut self) -> (boundary: Option<PaneBoundary>)
        ensures
            opt_view(boundary) == old(self)@.pending_boundary_save,
            final(self)@ == (AppModel { pending_boundary_save: None, ..old(self)@ }),
    {
        self.pending_pane_boundary_save.take()
    }

    /// Takes all host work requested by application-owned Resource Shell
    /// Session transitions.
    pub fn take_resource_shell_effects(&mut self) -> (effects: Vec<ResourceShellEffect>)
        ensures
            views(effects@) == old(self)@.pending_effects,
            final(self)@ == (AppModel { pending_effects: Seq::empty(), ..old(self)@ }),
    {
        let mut effects: Vec<ResourceShellEffect> = Vec::new();
        std::mem::swap(&mut effects, &mut self.pending_resource_shell_effects);
        assert(self@.pending_effects =~= Seq::empty());
        effects
    }

    /// Records a clipboard-adapter failure through the ordinary UI error path.
    pub fn report_details_copy_failure(&mut self, reason: String)
        ensures
            final(self)@ == old(self)@.with_error(
                Some("copy selected Details failed: "@ + reason@),
            ),
    {
        let mut text = "copy selected Details failed: ".to_owned();
        text.append(reason.as_str());
        self.state.command_error = Some(text);
    }

    /// Records a state-write failure through the ordinary in-app error path.
    pub fn report_pane_boundary_persistence_failure(&mut self, reason: String)
        ensures
            final(self)@ == old(self)@.with_error(
                Some("saving Pane Boundary failed: "@ + reason@),
            ),
    {
        let mut text = "saving Pane Boundary failed: ".to_owned();
        text.append(reason.as_str());
        self.state.command_error = Some(text);
    }

    /// Carries out one resolved user intention and returns any provider work.
    pub fn invoke(&mut self, command: Command) -> (requests: Vec<ProviderRequest>)
        requires
            old(self)@.can_allocate(),
        ensures
            (final(self)@, views(requests@)) == old(self)@.invoked(command),
    {
        let ghost before = self@;
        let mut requests = self.dispatch(command);
        proof {
            laws::lemma_dispatching_allocates_at_most_one(before, command);
        }
        self.follow_up(&mut requests);
        requests
    }

    fn update_command_bar(&mut self)
        ensures
            final(self)@ == old(self)@.bar_updated(),
    {
        proof {
            reveal(AppModel::bar_updated);
        }
        let scope = self.active_scope();
        let bar = {
            let resource = match self.state.active_workspace() {
                Some(workspace) => workspace.selected_resource(),
                None => None,
            };
            command_bar(&self.commands, scope, resource)
        };
        self.state.command_bar = bar;
    }

    /// Makes one Provider Workspace active.
    ///
    /// The Workspace being left keeps its navigation, but its in-flight detail
    /// work is abandoned: a result for a Workspace the user has left is refused
    /// rather than shown.
    fn activate_provider(&mut self, index: usize) -> (requests: Vec<ProviderRequest>)
        requires
            old(self)@.next_request_id < u64::MAX,
        ensures
            (final(self)@, views(requests@)) == old(self)@.activated(index),
    {
        proof {
            reveal(AppModel::activated);
        }
        let already = match self.state.active_provider {
            Some(active) => active == index,
            None => false,
        };
        if already {
            return no_requests();
        }
        self.leave_active();
        self.state.active_provider = Some(index);
        self.refresh_active_provider()
    }

    /// Abandons the work in flight for the Active Workspace.
    fn leave_active(&mut self)
        ensures
            final(self)@ == old(self)@.active_left(),
            final(self)@.next_request_id == old(self)@.next_request_id,
    {
        proof {
            reveal(AppModel::active_left);
        }
        let active = match self.state.active_index() {
            Some(active) => active,
            None => return,
        };
        let ghost before = self@;
        let previous = self.state.providers[active].id().clone();
        self.state.providers[active].invalidate_pending_detail();
        assert(self@.state.providers =~= before.state.providers.update(
            active as int,
            before.state.providers[active as int].without_pending_detail(),
        ));
        let kept = keep_other_providers(&self.pending_refreshes, &previous);
        self.pending_refreshes = kept;
    }

    /// Saves a share that changed.
    fn resize_pane_boundary(&mut self, moved: PaneBoundary)
        ensures
            final(self)@ == old(self)@.boundary_resized(moved@),
    {
        proof {
            reveal(AppModel::boundary_resized);
        }
        let before = self.state.pane_boundary.resources_percent();
        self.state.pane_boundary = moved;
        if before != moved.resources_percent() {
            self.pending_pane_boundary_save = Some(moved);
        }
    }

    fn release_pane_boundary(&mut self)
        ensures
            final(self)@ == old(self)@.boundary_released(),
    {
        proof {
            reveal(AppModel::boundary_released);
        }
        let released = self.state.pane_boundary.released();
        self.state.pane_boundary = released;
        match self.pane_boundary_before_drag.take() {
            Some(before) => {
                if before.resources_percent() != released.resources_percent() {
                    self.pending_pane_boundary_save = Some(released);
                }
            },
            None => {},
        }
    }

    fn scroll_resource_panel(&mut self, panel: usize, delta: isize)
        ensures
            final(self)@ == old(self)@.panel_scrolled(panel as int, delta as int),
    {
        proof {
            reveal(AppModel::panel_scrolled);
        }
        match self.state.active_index() {
            Some(active) => {
                let ghost before = self@;
                self.state.providers[active].move_resource_selection_at(panel, delta);
                assert(self@.state.providers =~= before.state.providers.update(
                    active as int,
                    before.state.providers[active as int].with_selection_moved_at(
                        panel as int,
                        delta as int,
                    ),
                ));
            },
            None => {},
        }
    }

    /// Gives up the Details selection, except for the Commands about it.
    fn leave_selection(&mut self, command: Command)
        ensures
            final(self)@ == old(self)@.selection_left(command),
            final(self)@.next_request_id == old(self)@.next_request_id,
            final(self)@.next_session_id == old(self)@.next_session_id,
    {
        proof {
            reveal(AppModel::selection_left);
        }
        let keeps = match command {
            Command::CopyDetails => true,
            Command::BeginDetailsSelection { .. } => true,
            Command::ExtendDetailsSelection { .. } => true,
            Command::ExtendDetailsSelectionAtEdge { .. } => true,
            _ => false,
        };
        if keeps {
            return;
        }
        match self.state.active_index() {
            Some(active) => {
                let ghost before = self@;
                self.state.providers[active].clear_detail_selection();
                assert(self@.state.providers =~= before.state.providers.update(
                    active as int,
                    before.state.providers[active as int].without_selection(),
                ));
            },
            None => {},
        }
    }

    fn dispatch(&mut self, command: Command) -> (requests: Vec<ProviderRequest>)
        requires
            old(self)@.can_allocate(),
        ensures
            (final(self)@, views(requests@)) == old(self)@.dispatched(command),
    {
        proof {
            reveal(AppModel::dispatched);
        }
        self.leave_selection(command);
        match command {
            Command::Refresh => self.refresh_active_provider(),
            Command::SelectNext => self.select_by_focus(1),
            Command::SelectPrevious => self.select_by_focus(-1),
            Command::NextWorkspace => self.move_provider_selection(1),
            Command::PreviousWorkspace => self.move_provider_selection(-1),
            Command::Confirm => self.confirm_or_dismiss(),
            Command::Resource(operation) => self.handle_resource_command(operation),
            Command::ActivateProviderWorkspace(index) => {
                if index >= self.state.providers.len() {
                    return no_requests();
                }
                self.state.focused_pane = FocusedPane::Providers;
                self.activate_provider(index)
            },
            _ => {
                self.carry_out(command);
                no_requests()
            },
        }
    }

    /// Carries out a Command that asks a Provider for nothing.
    fn carry_out(&mut self, command: Command)
        requires
            old(self)@.can_allocate(),
        ensures
            final(self)@ == old(self)@.carried_out(command),
    {
        proof {
            reveal(AppModel::carried_out);
        }
        match command {
            Command::Quit => {
                self.quit_requested = true;
            },
            Command::ToggleHelp => self.toggle_help(),
            Command::MovePaneBoundaryLeft => self.resize_pane_boundary(
                self.state.pane_boundary.moved_left(),
            ),
            Command::MovePaneBoundaryRight => self.resize_pane_boundary(
                self.state.pane_boundary.moved_right(),
            ),
            Command::GrabPaneBoundary(column) => {
                self.pane_boundary_before_drag = Some(self.state.pane_boundary);
                self.state.pane_boundary = self.state.pane_boundary.grabbed_at(column);
            },
            Command::SetPaneBoundary(share) => {
                self.state.pane_boundary = self.state.pane_boundary.dragged_to(share);
            },
            Command::ReleasePaneBoundary => self.release_pane_boundary(),
            Command::FocusProviders => {
                self.state.focused_pane = FocusedPane::Providers;
            },
            Command::FocusResourcePanel(index) => self.focus_resource_panel(index),
            Command::FocusDetails => {
                self.state.focused_pane = FocusedPane::Details;
            },
            Command::FocusNextPane => self.cycle_focus(1),
            Command::FocusPreviousPane => self.cycle_focus(-1),
            Command::SelectNextFast => self.move_resource_selection(FAST_SELECTION_STEP),
            Command::SelectPreviousFast => self.move_resource_selection(-FAST_SELECTION_STEP),
            Command::NextDetailView => self.move_detail_view(1),
            Command::PreviousDetailView => self.move_detail_view(-1),
            Command::ScrollDetailsDown => self.scroll_details(DETAIL_SCROLL_LINES),
            Command::ScrollDetailsUp => self.scroll_details(-DETAIL_SCROLL_LINES),
            Command::CopyDetails => self.copy_details(),
            Command::BeginDetailsSelection { line, column } => self.begin_selection(line, column),
            Command::ExtendDetailsSelection { line, column } => self.extend_selection(line, column),
            Command::ExtendDetailsSelectionAtEdge {
                above,
                column,
                visible_rows,
            } => self.extend_selection_at_edge(above, column, visible_rows),
            Command::OpenShell => self.open_shell(),
            Command::StartResourceShell => self.start_selected_resource_shell(),
            Command::ToggleResourceShellSize => self.toggle_shell_size(),
            Command::Cancel => self.cancel_or_dismiss(),
            Command::SelectResource { panel, resource } => self.select_resource(panel, resource),
            Command::ActivateDetailView(index) => self.activate_detail_view(index),
            // The wheel scrolls what is under the pointer, so it never touches
            // the focused Pane.
            Command::ScrollResourcePanelUp(panel) => self.scroll_resource_panel(panel, -1),
            Command::ScrollResourcePanelDown(panel) => self.scroll_resource_panel(panel, 1),
            _ => {},
        }
    }

    /// Takes the selected Details text, for the host to put on the clipboard.
    /// Without a selection there deliberately is nothing to send to it.
    fn copy_details(&mut self)
        ensures
            final(self)@ == old(self)@.details_copied(),
    {
        proof {
            reveal(AppModel::details_copied);
        }
        let text = match self.state.active_workspace() {
            Some(workspace) => workspace.selected_detail_text(),
            None => None,
        };
        self.state.pending_details_copy = text;
    }

    fn begin_selection(&mut self, line: u16, column: u16)
        ensures
            final(self)@ == old(self)@.selection_begun(line, column),
    {
        proof {
            reveal(AppModel::selection_begun);
        }
        self.state.focused_pane = FocusedPane::Details;
        match self.state.active_index() {
            Some(active) => {
                let ghost before = self@;
                self.state.providers[active].begin_detail_selection(line, column);
                assert(self@.state.providers =~= before.state.providers.update(
                    active as int,
                    before.state.providers[active as int].with_selection_begun(line, column),
                ));
            },
            None => {},
        }
    }

    fn extend_selection(&mut self, line: u16, column: u16)
        ensures
            final(self)@ == old(self)@.selection_extended(line, column),
    {
        proof {
            reveal(AppModel::selection_extended);
        }
        match self.state.active_index() {
            Some(active) => {
                let ghost before = self@;
                self.state.providers[active].extend_detail_selection(line, column);
                assert(self@.state.providers =~= before.state.providers.update(
                    active as int,
                    before.state.providers[active as int].with_selection_extended(line, column),
                ));
            },
            None => {},
        }
    }

    fn extend_selection_at_edge(&mut self, above: bool, column: u16, visible_rows: u16)
        ensures
            final(self)@ == old(self)@.selection_extended_at_edge(above, column, visible_rows),
    {
        proof {
            reveal(AppModel::selection_extended_at_edge);
        }
        match self.state.active_index() {
            Some(active) => {
                let ghost before = self@;
                let ghost workspace = before.state.providers[active as int];
                let delta: isize = if above {
                    -1
                } else {
                    1
                };
                let line: u16 = if above {
                    0
                } else {
                    visible_rows.saturating_sub(1)
                };
                self.state.providers[active].scroll_details(delta);
                self.state.providers[active].extend_detail_selection(line, column);
                assert(self@.state.providers =~= before.state.providers.update(
                    active as int,
                    workspace.with_details_scrolled(delta as int).with_selection_extended(
                        line,
                        column,
                    ),
                ));
            },
            None => {},
        }
    }

    fn toggle_shell_size(&mut self)
        ensures
            final(self)@ == old(self)@.shell_size_toggled(),
    {
        proof {
            reveal(AppModel::shell_size_toggled);
        }
        if self.state.visible_resource_shell_session().is_some() {
            self.state.resource_shell_presentation =
            match self.state.resource_shell_presentation {
                ResourceShellPresentation::Details => ResourceShellPresentation::Enlarged,
                ResourceShellPresentation::Enlarged => ResourceShellPresentation::Details,
            };
        }
    }

    fn select_resource(&mut self, panel: usize, resource: usize)
        ensures
            final(self)@ == old(self)@.resource_selected(panel as int, resource as int),
    {
        proof {
            reveal(AppModel::resource_selected);
        }
        match self.state.active_index() {
            Some(active) => {
                let ghost before = self@;
                let ghost workspace = before.state.providers[active as int];
                if self.state.providers[active].focus_resource_panel_at(panel) {
                    self.state.providers[active].select_resource_at(resource);
                    self.state.focused_pane = FocusedPane::Resources;
                    assert(self@.state.providers =~= before.state.providers.update(
                        active as int,
                        workspace.with_focus(
                            workspace.panel_id_at(panel as int)->0,
                        ).with_resource_selected_at(resource as int),
                    ));
                } else {
                    assert(self@.state.providers =~= before.state.providers);
                }
            },
            None => {},
        }
    }

    fn activate_detail_view(&mut self, index: usize)
        ensures
            final(self)@ == old(self)@.tab_activated(index as int),
    {
        proof {
            reveal(AppModel::tab_activated);
        }
        self.state.focused_pane = FocusedPane::Details;
        match self.state.active_index() {
            Some(active) => {
                let ghost before = self@;
                self.state.providers[active].select_detail_view_at(index);
                assert(self@.state.providers =~= before.state.providers.update(
                    active as int,
                    before.state.providers[active as int].with_tab_selected_at(index as int),
                ));
            },
            None => {},
        }
    }

    /// Moves the selection in whichever panel has focus.
    fn select_by_focus(&mut self, delta: isize) -> (requests: Vec<ProviderRequest>)
        requires
            old(self)@.next_request_id < u64::MAX,
        ensures
            (final(self)@, views(requests@)) == old(self)@.selected_by_focus(delta as int),
    {
        proof {
            reveal(AppModel::selected_by_focus);
        }
        match self.state.focused_pane {
            FocusedPane::Providers => self.move_provider_selection(delta),
            FocusedPane::Resources => {
                self.move_resource_selection(delta);
                no_requests()
            },
            FocusedPane::Details => no_requests(),
        }
    }

    /// Accepts the open modal: confirms a Resource Command, or dismisses a
    /// reported failure.
    fn confirm_or_dismiss(&mut self) -> (requests: Vec<ProviderRequest>)
        requires
            old(self)@.next_request_id < u64::MAX,
        ensures
            (final(self)@, views(requests@)) == old(self)@.confirmed(),
    {
        proof {
            reveal(AppModel::confirmed);
        }
        match self.state.confirmation.take() {
            Some(invocation) => self.dispatch_resource_command(invocation),
            None => {
                self.state.command_error = None;
                no_requests()
            },
        }
    }

    /// Cancels or returns from the open modal.
    fn cancel_or_dismiss(&mut self)
        ensures
            final(self)@ == old(self)@.cancelled(),
    {
        proof {
            reveal(AppModel::cancelled);
        }
        if self.state.confirmation.is_some() {
            self.state.confirmation = None;
        } else if self.state.command_error.is_some() {
            self.state.command_error = None;
        } else if self.state.help_overlay.is_some() {
            self.state.help_overlay = None;
        }
    }

    fn handle_provider_discovered(
        &mut self,
        provider: Provider,
        error: Option<WorkspaceError>,
    ) -> (requests: Vec<ProviderRequest>)
        requires
            old(self)@.next_request_id < u64::MAX,
        ensures
            (final(self)@, views(requests@)) == old(self)@.provider_discovered(
                provider@,
                opt_view(error),
            ),
    {
        proof {
            reveal(AppModel::provider_discovered);
        }
        let ghost before = self@;
        let activates_provider = self.state.active_provider.is_none();
        let should_refresh_active_provider = activates_provider && error.is_none();
        let provider_id = provider.id().clone();
        let position = self.state.providers.len();
        let workspace = ProviderWorkspaceState::new(provider, error);
        self.state.providers.push(workspace);
        assert(self@.state.providers =~= before.state.providers.push(workspace@));
        if activates_provider {
            self.state.active_provider = Some(position);
        }
        if should_refresh_active_provider {
            self.start_refresh(provider_id)
        } else {
            no_requests()
        }
    }

    /// Where a Provider stands among the Workspaces.
    fn provider_position(&self, provider_id: &ProviderId) -> (position: Option<usize>)
        ensures
            position matches Some(i) ==> first_position(
                provider_ids(self@.state.providers),
                provider_id@,
            ) == Some(i as int) && i < self.state.providers.len(),
            position is None ==> first_position(
                provider_ids(self@.state.providers),
                provider_id@,
            ) is None,
    {
        let ghost all = views(self.state.providers@);
        let ghost ids = provider_ids(all);
        let mut i: usize = 0;
        while i < self.state.providers.len()
            invariant
                i <= self.state.providers.len(),
                all == views(self.state.providers@),
                all == self@.state.providers,
                ids == provider_ids(all),
                forall|j: int| 0 <= j < i ==> ids[j] != provider_id@,
            decreases self.state.providers.len() - i,
        {
            assert(all[i as int] == self.state.providers@[i as int]@);
            assert(ids[i as int] == self.state.providers@[i as int]@.provider.id);
            if self.state.providers[i].id().same(provider_id) {
                proof {
                    lemma_first_position_found(ids, provider_id@, i as int);
                }
                return Some(i);
            }
            i = i + 1;
        }
        proof {
            lemma_first_position_none(ids, provider_id@);
        }
        None
    }

    fn apply_refresh_completed(
        &mut self,
        request_id: ProviderRequestId,
        provider_id: ProviderId,
        result: Result<WorkspaceSnapshot, WorkspaceError>,
    )
        ensures
            final(self)@ == old(self)@.refresh_completed(
                request_id,
                provider_id@,
                snapshot_result_view(result),
            ),
    {
        proof {
            reveal(AppModel::refresh_completed);
        }
        let ghost before = self@;
        let pending = match pending_position(&self.pending_refreshes, request_id) {
            Some(pending) => pending,
            None => return,
        };
        assert(before.pending_refreshes[pending as int] == (
            self.pending_refreshes@[pending as int].0,
            self.pending_refreshes@[pending as int].1@,
        ));
        let (_, expected) = self.pending_refreshes.remove(pending);
        assert(self@.pending_refreshes =~= before.pending_refreshes.remove(pending as int));
        if !expected.same(&provider_id) {
            return;
        }
        let position = match self.provider_position(&provider_id) {
            Some(position) => position,
            None => return,
        };
        let ghost taken = self@;
        let ghost workspace = taken.state.providers[position as int];
        assert(workspace == self.state.providers@[position as int]@);
        match result {
            Ok(snapshot) => {
                let count = snapshot.panels.len();
                assert(count == snapshot@.len());
                if count > NUMBERED_RESOURCE_PANEL_CAPACITY {
                    let text = panel_overflow(self.state.providers[position].name(), count);
                    self.state.providers[position].reject_snapshot(
                        WorkspaceError::new(text.as_str()),
                    );
                } else {
                    self.state.providers[position].reconcile_snapshot(snapshot);
                }
            },
            Err(error) => self.state.providers[position].record_load_error(error),
        }
        assert(self@.state.providers =~= taken.state.providers.update(
            position as int,
            self.state.providers@[position as int]@,
        ));
    }

    /// Brings the loaded detail view into line with what is on screen.
    ///
    /// Called after every event and Command, this is the single place a detail
    /// load starts: a target that already matches asks for nothing, and a
    /// target that changed replaces the pending request, which is what makes
    /// the previous one's result unwelcome.
    fn sync_details(&mut self) -> (requests: Vec<ProviderRequest>)
        requires
            old(self)@.next_request_id < u64::MAX,
        ensures
            (final(self)@, views(requests@)) == old(self)@.details_synced(),
    {
        proof {
            reveal(AppModel::details_synced);
        }
        let ghost before = self@;
        let request_id = ProviderRequestId(self.next_request_id);
        let active = match self.state.active_index() {
            Some(active) => active,
            None => return no_requests(),
        };
        let ghost workspace = before.state.providers[active as int];
        let load = self.state.providers[active].start_visible_detail_load(request_id);
        assert(self@.state.providers =~= before.state.providers.update(
            active as int,
            workspace.with_visible_details(request_id),
        ));
        match load {
            Some(load) => {
                self.next_request_id = self.next_request_id + 1;
                let (request_id, provider_id, target, view_id) = load.into_request_parts();
                one_request(
                    ProviderRequest::LoadResourceDetails {
                        request_id,
                        provider_id,
                        target,
                        view_id,
                    },
                )
            },
            None => no_requests(),
        }
    }

    fn apply_details_completed(
        &mut self,
        request_id: ProviderRequestId,
        provider_id: ProviderId,
        target: ResourceTarget,
        view_id: DetailViewId,
        result: Result<ResourceDetails, WorkspaceError>,
    )
        ensures
            final(self)@ == old(self)@.details_completed(
                CompletionModel {
                    load: LoadRequestModel {
                        request_id,
                        provider_id: provider_id@,
                        target: DetailTargetModel { resource: target@, view_id: view_id@ },
                    },
                    result: result_view(result),
                },
            ),
    {
        proof {
            reveal(AppModel::details_completed);
        }
        let ghost before = self@;
        let position = match self.provider_position(&provider_id) {
            Some(position) => position,
            None => return,
        };
        let completion = DetailCompletion::new(request_id, provider_id, target, view_id, result);
        self.state.providers[position].complete_detail_load(completion);
        assert(self@.state.providers =~= before.state.providers.update(
            position as int,
            before.state.providers[position as int].with_completion(completion@),
        ));
    }

    fn start_refresh(&mut self, provider_id: ProviderId) -> (requests: Vec<ProviderRequest>)
        requires
            old(self)@.next_request_id < u64::MAX,
        ensures
            (final(self)@, views(requests@)) == old(self)@.refresh_started(provider_id@),
    {
        proof {
            reveal(AppModel::refresh_started);
        }
        let ghost before = self@;
        let request_id = ProviderRequestId(self.next_request_id);
        self.next_request_id = self.next_request_id + 1;
        self.pending_refreshes.push((request_id, provider_id.clone()));
        assert(self@.pending_refreshes =~= before.pending_refreshes.push(
            (request_id, provider_id@),
        ));
        one_request(ProviderRequest::RefreshWorkspace { request_id, provider_id })
    }

    /// Takes a Command that ended out of those that run.
    fn take_running(&mut self, index: usize) -> (running: RunningResourceCommand)
        requires
            index < old(self)@.state.running_commands.len(),
        ensures
            running@ == old(self)@.state.running_commands[index as int],
            final(self)@ == old(self)@.with_state(
                StateModel {
                    running_commands: old(self)@.state.running_commands.remove(index as int),
                    ..old(self)@.state
                },
            ),
    {
        let ghost before = self@;
        assert(before.state.running_commands[index as int]
            == self.state.running_commands@[index as int]@);
        let running = self.state.running_commands.remove(index);
        assert(self@.state.running_commands =~= before.state.running_commands.remove(index as int));
        running
    }

    fn apply_resource_command_result(
        &mut self,
        request_id: ProviderRequestId,
        provider_id: ProviderId,
        target: ResourceTarget,
        command: ResourceCommand,
        result: Result<(), WorkspaceError>,
    ) -> (requests: Vec<ProviderRequest>)
        requires
            old(self)@.next_request_id < u64::MAX,
        ensures
            (final(self)@, views(requests@)) == old(self)@.command_completed(
                request_id,
                provider_id@,
                target@,
                command,
                command_result_view(result),
            ),
    {
        proof {
            reveal(AppModel::command_completed);
        }
        let ghost before = self@;
        let index = match running_position(
            &self.state.running_commands,
            request_id,
            &provider_id,
            &target,
            command,
        ) {
            Some(index) => index,
            None => return no_requests(),
        };
        let running = self.take_running(index);
        match result {
            Err(error) => {
                let text = operation_failure(
                    running.provider_name.as_str(),
                    running.command.as_str(),
                    running.resource_name.as_str(),
                    &running.target,
                    error.message.as_str(),
                );
                self.state.command_error = Some(text);
                no_requests()
            },
            Ok(_) => {
                self.state.command_error = None;
                if self.is_active_provider(&running.provider_id) {
                    self.refresh_active_provider()
                } else {
                    no_requests()
                }
            },
        }
    }

    /// Replaces the lifecycle of a session.
    fn set_lifecycle(&mut self, index: usize, lifecycle: ResourceShellSessionLifecycle)
        requires
            index < old(self)@.state.resource_shell_sessions.len(),
        ensures
            final(self)@ == old(self)@.with_lifecycle(index as int, lifecycle@),
    {
        let ghost before = self@;
        assert(before.state.resource_shell_sessions[index as int]
            == self.state.resource_shell_sessions@[index as int]@);
        let session = &self.state.resource_shell_sessions[index];
        let changed = ResourceShellSession {
            id: session.id,
            provider_id: session.provider_id.clone(),
            provider_name: session.provider_name.clone(),
            target: session.target.clone(),
            resource_name: session.resource_name.clone(),
            lifecycle,
        };
        self.state.resource_shell_sessions.set(index, changed);
        assert(self@.state.resource_shell_sessions
            =~= before.state.resource_shell_sessions.update(index as int, changed@));
    }

    /// Ends the start of a session that is starting, one way or the other.
    fn end_start(
        &mut self,
        session_id: ResourceShellSessionId,
        lifecycle: ResourceShellSessionLifecycle,
    )
        ensures
            final(self)@ == old(self)@.start_ended(session_id, lifecycle@),
    {
        proof {
            reveal(AppModel::start_ended);
        }
        match self.starting_session(session_id) {
            Some(index) => self.set_lifecycle(index, lifecycle),
            None => {},
        }
    }

    /// Where a session stands that is still starting.
    fn starting_session(&self, session_id: ResourceShellSessionId) -> (position: Option<usize>)
        ensures
            position matches Some(i) ==> first_position(
                session_ids(self@.state.resource_shell_sessions),
                session_id,
            ) == Some(i as int) && i < self@.state.resource_shell_sessions.len()
                && self@.state.resource_shell_sessions[i as int].lifecycle is Starting,
            position is None ==> (first_position(
                session_ids(self@.state.resource_shell_sessions),
                session_id,
            ) matches Some(i) ==> !(self@.state.resource_shell_sessions[i].lifecycle is Starting)),
    {
        let index = match session_position(&self.state.resource_shell_sessions, session_id) {
            Some(index) => index,
            None => return None,
        };
        assert(self@.state.resource_shell_sessions[index as int]
            == self.state.resource_shell_sessions@[index as int]@);
        match &self.state.resource_shell_sessions[index].lifecycle {
            ResourceShellSessionLifecycle::Starting => Some(index),
            _ => None,
        }
    }

    fn apply_resource_shell_exited(&mut self, session_id: ResourceShellSessionId) -> (requests: Vec<
        ProviderRequest,
    >)
        requires
            old(self)@.next_request_id < u64::MAX,
        ensures
            (final(self)@, views(requests@)) == old(self)@.shell_exited(session_id),
    {
        proof {
            reveal(AppModel::shell_exited);
        }
        let index = match session_position(&self.state.resource_shell_sessions, session_id) {
            Some(index) => index,
            None => return no_requests(),
        };
        assert(self@.state.resource_shell_sessions[index as int]
            == self.state.resource_shell_sessions@[index as int]@);
        let provider_id = self.state.resource_shell_sessions[index].provider_id.clone();
        self.set_lifecycle(index, ResourceShellSessionLifecycle::Exited);
        if self.is_active_provider(&provider_id) {
            self.refresh_active_provider()
        } else {
            no_requests()
        }
    }

    fn is_active_provider(&self, provider_id: &ProviderId) -> (answer: bool)
        ensures
            answer == self@.is_active_provider(provider_id@),
    {
        match self.state.active_workspace() {
            Some(workspace) => workspace.id().same(provider_id),
            None => false,
        }
    }

    /// What a Resource Command means now, where the selected Resource offers it.
    fn invocation(&self, command: ResourceCommand) -> (invocation: Option<
        ResourceCommandInvocation,
    >)
        ensures
            opt_view(invocation) == self@.invocation(command),
    {
        proof {
            reveal(AppModel::invocation);
        }
        let provider = match self.state.active_workspace() {
            Some(provider) => provider,
            None => return None,
        };
        let target = match provider.selected_resource_target() {
            Some(target) => target,
            None => return None,
        };
        let resource = match provider.selected_resource() {
            Some(resource) => resource,
            None => return None,
        };
        if !resource.offers(command) {
            return None;
        }
        Some(
            ResourceCommandInvocation {
                provider_id: provider.id().clone(),
                provider_name: provider.name().to_owned(),
                target,
                resource_name: resource.name.clone(),
                command,
                state: resource.state,
            },
        )
    }

    fn handle_resource_command(&mut self, command: ResourceCommand) -> (requests: Vec<
        ProviderRequest,
    >)
        requires
            old(self)@.next_request_id < u64::MAX,
        ensures
            (final(self)@, views(requests@)) == old(self)@.resource_command(command),
    {
        proof {
            reveal(AppModel::resource_command);
        }
        match self.invocation(command) {
            Some(invocation) => {
                if command == ResourceCommand::Delete {
                    self.state.confirmation = Some(invocation);
                    return no_requests();
                }
                self.dispatch_resource_command(invocation)
            },
            None => no_requests(),
        }
    }

    fn dispatch_resource_command(&mut self, target: ResourceCommandInvocation) -> (requests: Vec<
        ProviderRequest,
    >)
        requires
            old(self)@.next_request_id < u64::MAX,
        ensures
            (final(self)@, views(requests@)) == old(self)@.command_dispatched(target@),
    {
        proof {
            reveal(AppModel::command_dispatched);
        }
        let ghost before = self@;
        self.state.command_error = None;
        let request_id = ProviderRequestId(self.next_request_id);
        self.next_request_id = self.next_request_id + 1;
        let running = RunningResourceCommand {
            request_id,
            provider_id: target.provider_id.clone(),
            provider_name: target.provider_name,
            target: target.target.clone(),
            resource_name: target.resource_name,
            command: target.command,
        };
        self.state.running_commands.push(running);
        assert(self@.state.running_commands =~= before.state.running_commands.push(running@));
        one_request(
            ProviderRequest::ExecuteResourceCommand {
                request_id,
                provider_id: target.provider_id,
                target: target.target,
                command: target.command,
                state: target.state,
            },
        )
    }

    /// Opens a Resource Shell Session for the selected Resource, over the whole
    /// Workspace.
    ///
    /// A Resource whose Provider offers no shell asks for nothing, so an
    /// unsupported operation stays unsupported rather than being attempted and
    /// refused.
    fn open_shell(&mut self)
        requires
            old(self)@.next_session_id < u64::MAX,
        ensures
            final(self)@ == old(self)@.shell_opened(),
    {
        proof {
            reveal(AppModel::shell_opened);
        }
        let ghost before = self@;
        let active = match self.state.active_index() {
            Some(active) => active,
            None => return,
        };
        let ghost workspace = before.state.providers[active as int];
        if self.state.providers[active].select_resource_shell_tab() {
            assert(self@.state.providers =~= before.state.providers.update(
                active as int,
                workspace.with_shell_tab(),
            ));
            self.state.focused_pane = FocusedPane::Details;
            self.state.resource_shell_presentation = ResourceShellPresentation::Enlarged;
            self.start_selected_resource_shell();
        } else {
            assert(self@.state.providers =~= before.state.providers);
        }
    }

    /// The session that starting the selected Resource's shell means now.
    fn startable_session(&self) -> (started: Option<(ResourceShellSession, ResourceShellProcess)>)
        ensures
            started matches Some(started) ==> self@.startable_session() == Some(
                (started.0@, started.1@),
            ),
            started is None ==> self@.startable_session() is None,
    {
        proof {
            reveal(AppModel::startable_session);
        }
        let provider = match self.state.active_workspace() {
            Some(provider) => provider,
            None => return None,
        };
        let target = match provider.selected_resource_target() {
            Some(target) => target,
            None => return None,
        };
        let resource = match provider.selected_resource() {
            Some(resource) => resource,
            None => return None,
        };
        let process = match &resource.shell {
            Some(process) => process.clone(),
            None => return None,
        };
        if !provider.selected_resource_shell_tab() {
            return None;
        }
        if any_live_session(&self.state.resource_shell_sessions, provider.id(), &target) {
            return None;
        }
        let session = ResourceShellSession {
            id: ResourceShellSessionId(self.next_resource_shell_session_id),
            provider_id: provider.id().clone(),
            provider_name: provider.name().to_owned(),
            target,
            resource_name: resource.name.clone(),
            lifecycle: ResourceShellSessionLifecycle::Starting,
        };
        Some((session, process))
    }

    fn start_selected_resource_shell(&mut self)
        requires
            old(self)@.next_session_id < u64::MAX,
        ensures
            final(self)@ == old(self)@.shell_started(),
    {
        proof {
            reveal(AppModel::shell_started);
        }
        let ghost before = self@;
        let (session, process) = match self.startable_session() {
            Some(started) => started,
            None => return,
        };
        let mut kept = keep_other_sessions(
            &self.state.resource_shell_sessions,
            &session.provider_id,
            &session.target,
        );
        let ghost others = views(kept@);
        kept.push(session.clone());
        assert(views(kept@) =~= others.push(session@));
        self.state.resource_shell_sessions = kept;
        self.next_resource_shell_session_id = self.next_resource_shell_session_id + 1;
        let effect = ResourceShellEffect::Start { session, process };
        self.pending_resource_shell_effects.push(effect);
        assert(self@.pending_effects =~= before.pending_effects.push(effect@));
    }

    fn toggle_help(&mut self)
        ensures
            final(self)@ == old(self)@.help_toggled(),
    {
        proof {
            reveal(AppModel::help_toggled);
        }
        match self.state.help_overlay.take() {
            Some(_) => {},
            None => {
                let help = self.help();
                self.state.help_overlay = help;
            },
        }
    }

    /// The help for the selected Resource in the focused Pane.
    fn help(&self) -> (help: Option<HelpOverlay>)
        ensures
            opt_view(help) == self@.help(),
    {
        proof {
            reveal(AppModel::help);
        }
        let scope = match self.state.focused_pane {
            FocusedPane::Resources => CommandScope::ResourceView,
            FocusedPane::Details => CommandScope::Details,
            FocusedPane::Providers => return None,
        };
        let workspace = match self.state.active_workspace() {
            Some(workspace) => workspace,
            None => return None,
        };
        let resource = match workspace.selected_resource() {
            Some(resource) => resource,
            None => return None,
        };
        let panel_count: usize = match workspace.resource_panel_count() {
            Some(count) => count,
            None => 0,
        };
        let commands = self.commands.in_scope(scope);
        proof {
            laws::lemma_offered_commands_are_bound(self.commands@, scope);
        }
        Some(
            HelpOverlay {
                target: resource.name.clone(),
                entries: entries_for(&commands, resource, panel_count),
            },
        )
    }

    fn refresh_active_provider(&mut self) -> (requests: Vec<ProviderRequest>)
        requires
            old(self)@.next_request_id < u64::MAX,
        ensures
            (final(self)@, views(requests@)) == old(self)@.refreshed(),
    {
        proof {
            reveal(AppModel::refreshed);
        }
        let provider_id = match self.state.active_workspace() {
            Some(provider) => provider.id().clone(),
            None => return no_requests(),
        };
        if is_pending(&self.pending_refreshes, &provider_id) {
            return no_requests();
        }
        self.start_refresh(provider_id)
    }

    fn focus_resource_panel(&mut self, index: usize)
        ensures
            final(self)@ == old(self)@.panel_focused(index as int),
    {
        proof {
            reveal(AppModel::panel_focused);
        }
        let ghost before = self@;
        match self.state.active_index() {
            Some(active) => {
                let ghost workspace = before.state.providers[active as int];
                if self.state.providers[active].focus_resource_panel_at(index) {
                    assert(self@.state.providers =~= before.state.providers.update(
                        active as int,
                        workspace.with_focus(workspace.panel_id_at(index as int)->0),
                    ));
                    self.state.focused_pane = FocusedPane::Resources;
                } else {
                    assert(self@.state.providers =~= before.state.providers);
                }
            },
            None => {},
        }
    }

    fn cycle_focus(&mut self, delta: isize)
        ensures
            final(self)@ == old(self)@.focus_cycled(delta as int),
    {
        proof {
            reveal(AppModel::focus_cycled);
            reveal(AppModel::pane_focused);
        }
        let workspace = match self.state.active_workspace() {
            Some(workspace) => workspace,
            None => {
                self.state.focused_pane = FocusedPane::Providers;
                return;
            },
        };
        let panel_count: usize = match workspace.resource_panel_count() {
            Some(count) => count,
            None => {
                self.state.focused_pane = FocusedPane::Providers;
                return;
            },
        };
        let current: u128 = match self.state.focused_pane {
            FocusedPane::Providers => 0,
            FocusedPane::Resources => match workspace.focused_resource_panel_index() {
                Some(index) => index as u128 + 1,
                None => 0,
            },
            FocusedPane::Details => panel_count as u128 + 1,
        };
        assert(current == self@.pane_index());
        let next = ring_step(current, delta, panel_count as u128 + 2);
        if next == 0 {
            self.state.focused_pane = FocusedPane::Providers;
        } else if next <= panel_count as u128 {
            self.focus_resource_panel((next - 1) as usize);
        } else {
            self.state.focused_pane = FocusedPane::Details;
        }
    }

    fn move_resource_selection(&mut self, delta: isize)
        ensures
            final(self)@ == old(self)@.selection_moved(delta as int),
    {
        proof {
            reveal(AppModel::selection_moved);
        }
        match self.state.active_index() {
            Some(active) => {
                let ghost before = self@;
                self.state.providers[active].move_resource_selection(delta);
                assert(self@.state.providers =~= before.state.providers.update(
                    active as int,
                    before.state.providers[active as int].with_focused_selection_moved(
                        delta as int,
                    ),
                ));
            },
            None => {},
        }
    }

    /// Moves the detail view's first visible line, keeping at least the last
    /// line on screen.
    ///
    /// Rendering owns the layout, so the application cannot know how tall the
    /// panel is; clamping to the last line is the strongest promise it can keep
    /// without one, and it is enough that scrolling never runs into blank space.
    fn scroll_details(&mut self, delta: isize)
        ensures
            final(self)@ == old(self)@.details_scrolled(delta as int),
    {
        proof {
            reveal(AppModel::details_scrolled);
        }
        match self.state.active_index() {
            Some(active) => {
                let ghost before = self@;
                self.state.providers[active].scroll_details(delta);
                assert(self@.state.providers =~= before.state.providers.update(
                    active as int,
                    before.state.providers[active as int].with_details_scrolled(delta as int),
                ));
            },
            None => {},
        }
    }

    /// Moves through the tabs of the selected Resource.
    ///
    /// The tabs are a ring: they are few enough that walking off one end is a
    /// request for the other, not a mistake to clamp.
    fn move_detail_view(&mut self, delta: isize)
        ensures
            final(self)@ == old(self)@.tab_moved(delta as int),
    {
        proof {
            reveal(AppModel::tab_moved);
        }
        match self.state.active_index() {
            Some(active) => {
                let ghost before = self@;
                self.state.providers[active].move_detail_view(delta);
                assert(self@.state.providers =~= before.state.providers.update(
                    active as int,
                    before.state.providers[active as int].with_tab_moved(delta as int),
                ));
            },
            None => {},
        }
    }

    fn move_provider_selection(&mut self, delta: isize) -> (requests: Vec<ProviderRequest>)
        requires
            old(self)@.next_request_id < u64::MAX,
        ensures
            (final(self)@, views(requests@)) == old(self)@.provider_moved(delta as int),
    {
        proof {
            reveal(AppModel::provider_moved);
        }
        let provider_count: usize = self.state.providers.len();
        if provider_count < 2 {
            return no_requests();
        }
        match self.state.active_provider {
            Some(active) => {
                let next = ring_step(active as u128, delta, provider_count as u128);
                self.activate_provider(next as usize)
            },
            None => no_requests(),
        }
    }
}

fn no_requests() -> (requests: Vec<ProviderRequest>)
    ensures
        views(requests@) == Seq::<RequestModel>::empty(),
{
    let requests: Vec<ProviderRequest> = Vec::new();
    assert(views(requests@) =~= Seq::<RequestModel>::empty());
    requests
}

fn one_request(request: ProviderRequest) -> (requests: Vec<ProviderRequest>)
    ensures
        views(requests@) == seq![request@],
{
    let mut requests: Vec<ProviderRequest> = Vec::new();
    requests.push(request);
    assert(views(requests@) =~= seq![request@]);
    requests
}

fn pending_position(
    pending: &Vec<(ProviderRequestId, ProviderId)>,
    request_id: ProviderRequestId,
) -> (position: Option<usize>)
    ensures
        position matches Some(i) ==> first_position(
            pending_ids(pending_view(pending@)),
            request_id,
        ) == Some(i as int) && i < pending.len(),
        position is None ==> first_position(
            pending_ids(pending_view(pending@)),
            request_id,
        ) is None,
{
    let ghost ids = pending_ids(pending_view(pending@));
    let mut i: usize = 0;
    while i < pending.len()
        invariant
            i <= pending.len(),
            ids == pending_ids(pending_view(pending@)),
            forall|j: int| 0 <= j < i ==> ids[j] != request_id,
        decreases pending.len() - i,
    {
        assert(ids[i as int] == pending@[i as int].0);
        if pending[i].0 == request_id {
            proof {
                lemma_first_position_found(ids, request_id, i as int);
            }
            return Some(i);
        }
        i = i + 1;
    }
    proof {
        lemma_first_position_none(ids, request_id);
    }
    None
}

fn is_pending(pending: &Vec<(ProviderRequestId, ProviderId)>, provider_id: &ProviderId) -> (answer:
    bool)
    ensures
        answer == pending_providers(pending_view(pending@)).contains(provider_id@),
{
    let ghost ids = pending_providers(pending_view(pending@));
    let mut i: usize = 0;
    while i < pending.len()
        invariant
            i <= pending.len(),
            ids == pending_providers(pending_view(pending@)),
            forall|j: int| 0 <= j < i ==> ids[j] != provider_id@,
        decreases pending.len() - i,
    {
        assert(ids[i as int] == pending@[i as int].1@);
        if pending[i].1.same(provider_id) {
            return true;
        }
        i = i + 1;
    }
    false
}

fn keep_other_providers(
    pending: &Vec<(ProviderRequestId, ProviderId)>,
    provider_id: &ProviderId,
) -> (kept: Vec<(ProviderRequestId, ProviderId)>)
    ensures
        pending_view(kept@) == pending_without(pending_view(pending@), provider_id@),
{
    let mut kept: Vec<(ProviderRequestId, ProviderId)> = Vec::new();
    let ghost all = pending_view(pending@);
    let mut i: usize = 0;
    assert(pending_view(kept@) =~= Seq::empty());
    while i < pending.len()
        invariant
            i <= pending.len(),
            all == pending_view(pending@),
            pending_view(kept@) == pending_without(all.take(i as int), provider_id@),
        decreases pending.len() - i,
    {
        proof {
            assert(all.take(i + 1).drop_last() =~= all.take(i as int));
            assert(all.take(i + 1).last() == (pending@[i as int].0, pending@[i as int].1@));
        }
        if !pending[i].1.same(provider_id) {
            let ghost before = kept@;
            kept.push((pending[i].0, pending[i].1.clone()));
            assert(pending_view(kept@) =~= pending_view(before).push(all[i as int]));
        }
        i = i + 1;
    }
    assert(all.take(i as int) =~= all);
    kept
}

fn running_position(
    running: &Vec<RunningResourceCommand>,
    request_id: ProviderRequestId,
    provider_id: &ProviderId,
    target: &ResourceTarget,
    command: ResourceCommand,
) -> (position: Option<usize>)
    ensures
        position matches Some(i) ==> first_position(
            running_keys(views(running@)),
            (request_id, provider_id@, target@, command),
        ) == Some(i as int) && i < running.len(),
        position is None ==> first_position(
            running_keys(views(running@)),
            (request_id, provider_id@, target@, command),
        ) is None,
{
    let ghost all = views(running@);
    let ghost keys = running_keys(all);
    let ghost wanted = (request_id, provider_id@, target@, command);
    let mut i: usize = 0;
    while i < running.len()
        invariant
            i <= running.len(),
            all == views(running@),
            keys == running_keys(all),
            wanted == (request_id, provider_id@, target@, command),
            forall|j: int| 0 <= j < i ==> keys[j] != wanted,
        decreases running.len() - i,
    {
        let entry = &running[i];
        assert(all[i as int] == entry@);
        assert(keys[i as int] == (
            entry.request_id,
            entry.provider_id@,
            entry.target@,
            entry.command,
        ));
        if entry.request_id == request_id && entry.provider_id.same(provider_id)
            && entry.target.same(target) && entry.command == command {
            proof {
                lemma_first_position_found(keys, wanted, i as int);
            }
            return Some(i);
        }
        i = i + 1;
    }
    proof {
        lemma_first_position_none(keys, wanted);
    }
    None
}

fn session_position(sessions: &Vec<ResourceShellSession>, session_id: ResourceShellSessionId) -> (
    position: Option<usize>)
    ensures
        position matches Some(i) ==> first_position(session_ids(views(sessions@)), session_id)
            == Some(i as int) && i < sessions.len(),
        position is None ==> first_position(session_ids(views(sessions@)), session_id) is None,
{
    let ghost all = views(sessions@);
    let ghost ids = session_ids(all);
    let mut i: usize = 0;
    while i < sessions.len()
        invariant
            i <= sessions.len(),
            all == views(sessions@),
            ids == session_ids(all),
            forall|j: int| 0 <= j < i ==> ids[j] != session_id,
        decreases sessions.len() - i,
    {
        assert(all[i as int] == sessions@[i as int]@);
        assert(ids[i as int] == sessions@[i as int].id);
        if sessions[i].id == session_id {
            proof {
                lemma_first_position_found(ids, session_id, i as int);
            }
            return Some(i);
        }
        i = i + 1;
    }
    proof {
        lemma_first_position_none(ids, session_id);
    }
    None
}

fn any_live_session(
    sessions: &Vec<ResourceShellSession>,
    provider_id: &ProviderId,
    target: &ResourceTarget,
) -> (answer: bool)
    ensures
        answer == has_live_session(views(sessions@), provider_id@, target@),
{
    let ghost all = views(sessions@);
    let mut i: usize = 0;
    while i < sessions.len()
        invariant
            i <= sessions.len(),
            all == views(sessions@),
            forall|j: int|
                0 <= j < i ==> !((#[trigger] all[j]).is_for(provider_id@, target@)
                    && all[j].is_live()),
        decreases sessions.len() - i,
    {
        assert(all[i as int] == sessions@[i as int]@);
        if sessions[i].is_for(provider_id, target) && sessions[i].is_live() {
            return true;
        }
        i = i + 1;
    }
    false
}

fn keep_other_sessions(
    sessions: &Vec<ResourceShellSession>,
    provider_id: &ProviderId,
    target: &ResourceTarget,
) -> (kept: Vec<ResourceShellSession>)
    ensures
        views(kept@) == sessions_without(views(sessions@), provider_id@, target@),
{
    let mut kept: Vec<ResourceShellSession> = Vec::new();
    let ghost all = views(sessions@);
    let mut i: usize = 0;
    assert(views(kept@) =~= Seq::empty());
    while i < sessions.len()
        invariant
            i <= sessions.len(),
            all == views(sessions@),
            views(kept@) == sessions_without(all.take(i as int), provider_id@, target@),
        decreases sessions.len() - i,
    {
        proof {
            assert(all.take(i + 1).drop_last() =~= all.take(i as int));
            assert(all.take(i + 1).last() == sessions@[i as int]@);
        }
        if !sessions[i].is_for(provider_id, target) {
            let ghost before = kept@;
            kept.push(sessions[i].clone());
            assert(views(kept@) =~= views(before).push(all[i as int]));
        }
        i = i + 1;
    }
    assert(all.take(i as int) =~= all);
    kept
}

fn available(command: Command, resource: Option<&Resource>) -> (answer: bool)
    ensures
        answer == is_available(command, opt_view(resource)),
{
    match command {
        Command::Resource(operation) => match resource {
            Some(resource) => resource.offers(operation),
            None => false,
        },
        _ => true,
    }
}

/// Collects the Commands that the bar may show, either the Resource Commands or
/// the others.
fn collect_bar<'a>(
    commands: &Vec<&'a EffectiveCommand>,
    resource: Option<&Resource>,
    resource_commands: bool,
    entries: &mut Vec<&'a EffectiveCommand>,
)
    ensures
        views(final(entries)@) == views(old(entries)@) + bar_candidates(
            views(commands@),
            opt_view(resource),
            resource_commands,
        ),
{
    let ghost all = views(commands@);
    let ghost before = views(entries@);
    let mut i: usize = 0;
    assert(views(entries@) =~= before + Seq::<CommandModel>::empty());
    while i < commands.len()
        invariant
            i <= commands.len(),
            all == views(commands@),
            views(entries@) == before + bar_candidates(
                all.take(i as int),
                opt_view(resource),
                resource_commands,
            ),
        decreases commands.len() - i,
    {
        let entry = commands[i];
        proof {
            assert(all.take(i + 1).drop_last() =~= all.take(i as int));
            assert(all.take(i + 1).last() == entry@);
        }
        let about_resource = match entry.command {
            Command::Resource(_) => true,
            _ => false,
        };
        let ghost earlier = entries@;
        if available(entry.command, resource) && entry.command != Command::ToggleHelp
            && about_resource == resource_commands {
            entries.push(entry);
            proof {
                assert(views(entries@) =~= views(earlier).push(entry@));
                assert(views(entries@) =~= before + bar_candidates(
                    all.take(i + 1),
                    opt_view(resource),
                    resource_commands,
                ));
            }
        }
        i = i + 1;
    }
    assert(all.take(i as int) =~= all);
}

/// The bar at the bottom of the screen.
fn command_bar(registry: &CommandRegistry, scope: CommandScope, resource: Option<&Resource>) -> (
    bar: Vec<HelpEntry>)
    ensures
        views(bar@) == command_bar_of(registry@, scope, opt_view(resource)),
{
    let commands = registry.in_scope(scope);
    proof {
        laws::lemma_offered_commands_are_bound(registry@, scope);
    }
    let ghost offered_here = offered_in(registry@, scope);
    let mut entries: Vec<&EffectiveCommand> = Vec::new();
    assert(views(entries@) =~= Seq::<CommandModel>::empty());
    collect_bar(&commands, resource, true, &mut entries);
    collect_bar(&commands, resource, false, &mut entries);
    let ghost candidates = views(entries@);
    proof {
        assert(candidates =~= bar_candidates(offered_here, opt_view(resource), true)
            + bar_candidates(offered_here, opt_view(resource), false));
        laws::lemma_candidates_are_bound(offered_here, opt_view(resource), true);
        laws::lemma_candidates_are_bound(offered_here, opt_view(resource), false);
    }
    let count: usize = if entries.len() < COMMAND_BAR_ENTRIES {
        entries.len()
    } else {
        COMMAND_BAR_ENTRIES
    };
    let ghost taken = at_most(candidates, COMMAND_BAR_ENTRIES as int);
    let ghost wanted = command_bar_of(registry@, scope, opt_view(resource));
    let mut bar: Vec<HelpEntry> = Vec::new();
    let mut i: usize = 0;
    assert(views(bar@) =~= wanted.take(0));
    while i < count
        invariant
            i <= count,
            count <= entries.len(),
            count == taken.len(),
            candidates == views(entries@),
            forall|j: int| 0 <= j < candidates.len() ==> (#[trigger] candidates[j]).keys.len() > 0,
            forall|j: int| 0 <= j < taken.len() ==> taken[j] == candidates[j],
            wanted == taken.map_values(|entry: CommandModel| bar_entry(entry)),
            views(bar@) == wanted.take(i as int),
        decreases count - i,
    {
        let entry = entries[i];
        assert(candidates[i as int] == entry@);
        let shown_entry = HelpEntry {
            key: entry.keys[0].to_string(),
            description: entry.description.to_owned(),
        };
        let ghost before = bar@;
        bar.push(shown_entry);
        proof {
            assert(wanted[i as int] == bar_entry(taken[i as int]));
            assert(views(bar@) =~= views(before).push(shown_entry@));
            assert(wanted.take(i + 1) =~= wanted.take(i as int).push(wanted[i as int]));
        }
        i = i + 1;
    }
    assert(wanted.take(i as int) =~= wanted);
    bar
}

/// One Command as help describes it for a Resource.
fn describe(entry: &EffectiveCommand, resource: &Resource) -> (help: HelpEntry)
    requires
        entry@.keys.len() > 0,
    ensures
        help@ == help_entry(entry@, resource@),
{
    let unavailable = !available(entry.command, Some(resource)) || (entry.command
        == Command::OpenShell && resource.shell.is_none());
    let mut description = entry.description.to_owned();
    if unavailable {
        description.append(" (unavailable)");
    }
    HelpEntry { key: entry.keys[0].to_string(), description }
}

/// Every Command that help lists for a Resource.
fn entries_for(
    commands: &Vec<&EffectiveCommand>,
    resource: &Resource,
    panel_count: usize,
) -> (entries: Vec<HelpEntry>)
    requires
        forall|j: int| 0 <= j < commands.len() ==> (#[trigger] views(commands@)[j]).keys.len() > 0,
    ensures
        views(entries@) == help_entries(views(commands@), resource@, panel_count as int),
{
    let ghost all = views(commands@);
    let mut entries: Vec<HelpEntry> = Vec::new();
    let mut i: usize = 0;
    assert(views(entries@) =~= Seq::<HelpEntryModel>::empty());
    while i < commands.len()
        invariant
            i <= commands.len(),
            all == views(commands@),
            forall|j: int| 0 <= j < all.len() ==> (#[trigger] all[j]).keys.len() > 0,
            views(entries@) == help_entries(all.take(i as int), resource@, panel_count as int),
        decreases commands.len() - i,
    {
        let entry = commands[i];
        proof {
            assert(all[i as int] == entry@);
            assert(all.take(i + 1).drop_last() =~= all.take(i as int));
            assert(all.take(i + 1).last() == entry@);
        }
        let listed = match entry.command {
            Command::FocusResourcePanel(index) => index < panel_count,
            _ => true,
        };
        if listed {
            let ghost before = entries@;
            let help = describe(entry, resource);
            entries.push(help);
            assert(views(entries@) =~= views(before).push(help@));
        }
        i = i + 1;
    }
    assert(all.take(i as int) =~= all);
    entries
}

} // verus!
