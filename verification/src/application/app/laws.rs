//! What every event and every Command keeps.

use vstd::prelude::*;

use super::model::{
    bar_candidates, command_bar_of, panel_overflow_text, pending_ids, pending_providers,
    pending_without, provider_ids, running_keys, session_ids, sessions_without, AppModel,
    EventModel, Outcome, COMMAND_BAR_ENTRIES, DETAIL_SCROLL_LINES, FAST_SELECTION_STEP,
};
use super::state::{FocusedPane, InvocationModel, StateModel};
use crate::application::command::{
    offered_in, Command, CommandModel, CommandScope, ResourceCommand,
};
use crate::application::pane_boundary::BoundaryModel;
use crate::application::provider::{PanelModel, ProviderRequestId, RequestModel, ResourceModel};
use crate::application::shell::{
    LifecycleModel, ResourceShellPresentation, ResourceShellSessionId, SessionModel,
};
use crate::application::workspace::laws::{
    law_choosing_a_tab_keeps_choices_fitting, law_details_describe_the_screen,
    law_focusing_keeps_choices_fitting, law_moving_keeps_choices_fitting,
    law_reconciling_makes_choices_fit, law_selecting_keeps_choices_fitting,
};
use crate::application::workspace::model::{
    CompletionModel, DetailTargetModel, LoadRequestModel, WorkspaceModel,
};
use crate::domain::{ProviderModel, TargetModel};
use crate::text::{first_position, lemma_first_position};

verus! {

pub proof fn lemma_offered_commands_are_bound(registry: Seq<CommandModel>, scope: CommandScope)
    ensures
        forall|i: int|
            0 <= i < offered_in(registry, scope).len() ==> (#[trigger] offered_in(
                registry,
                scope,
            )[i]).keys.len() > 0,
    decreases registry.len(),
{
    if registry.len() > 0 {
        lemma_offered_commands_are_bound(registry.drop_last(), scope);
    }
}

pub proof fn lemma_candidates_are_bound(
    commands: Seq<CommandModel>,
    resource: Option<ResourceModel>,
    resource_commands: bool,
)
    requires
        forall|i: int| 0 <= i < commands.len() ==> (#[trigger] commands[i]).keys.len() > 0,
    ensures
        forall|i: int|
            0 <= i < bar_candidates(commands, resource, resource_commands).len() ==> (
            #[trigger] bar_candidates(commands, resource, resource_commands)[i]).keys.len() > 0,
    decreases commands.len(),
{
    if commands.len() > 0 {
        assert forall|i: int| 0 <= i < commands.drop_last().len() implies (
        #[trigger] commands.drop_last()[i]).keys.len() > 0 by {
            assert(commands.drop_last()[i] == commands[i]);
        }
        assert(commands[commands.len() - 1].keys.len() > 0);
        lemma_candidates_are_bound(commands.drop_last(), resource, resource_commands);
    }
}

/// The identity of a request.
pub open spec fn request_number(request: RequestModel) -> int {
    match request {
        RequestModel::RefreshWorkspace { request_id, .. } => request_id.0 as int,
        RequestModel::ExecuteResourceCommand { request_id, .. } => request_id.0 as int,
        RequestModel::LoadResourceDetails { request_id, .. } => request_id.0 as int,
    }
}

impl AppModel {
    /// Requests are numbered from the next identity on, each with one of its
    /// own, and every number is spent.
    pub open spec fn numbers(self, outcome: Outcome) -> bool {
        &&& outcome.0.next_request_id == self.next_request_id + outcome.1.len()
        &&& forall|i: int|
            0 <= i < outcome.1.len() ==> request_number(#[trigger] outcome.1[i])
                == self.next_request_id + i
    }

    /// At most one request was numbered.
    pub open spec fn numbers_at_most_one(self, outcome: Outcome) -> bool {
        self.numbers(outcome) && outcome.1.len() <= 1
    }
}

proof fn lemma_refreshed_takes_at_most_one(app: AppModel)
    requires
        app.next_request_id < u64::MAX,
    ensures
        app.numbers_at_most_one(app.refreshed()),
{
    reveal(AppModel::refreshed);
    reveal(AppModel::refresh_started);
}

proof fn lemma_activated_takes_at_most_one(app: AppModel, index: usize)
    requires
        app.next_request_id < u64::MAX,
    ensures
        app.numbers_at_most_one(app.activated(index)),
{
    reveal(AppModel::activated);
    reveal(AppModel::active_left);
    let left = app.active_left();
    lemma_refreshed_takes_at_most_one(
        left.with_state(StateModel { active_provider: Some(index), ..left.state }),
    );
}

proof fn lemma_provider_moved_takes_at_most_one(app: AppModel, delta: int)
    requires
        app.next_request_id < u64::MAX,
    ensures
        app.numbers_at_most_one(app.provider_moved(delta)),
{
    reveal(AppModel::provider_moved);
    if let Some(active) = app.state.active_provider {
        lemma_activated_takes_at_most_one(
            app,
            ((active + delta) % (app.state.providers.len() as int)) as usize,
        );
    }
}

/// An event takes at most one request identity before the details follow.
pub proof fn lemma_applying_allocates_at_most_one(app: AppModel, event: EventModel)
    requires
        app.can_allocate(),
    ensures
        app.numbers_at_most_one(app.applied(event)),
{
    reveal(AppModel::applied);
    match event {
        EventModel::ProviderDiscovered { provider, error } => {
            reveal(AppModel::provider_discovered);
            reveal(AppModel::refresh_started);
        },
        EventModel::RefreshTimerElapsed => {
            lemma_refreshed_takes_at_most_one(app);
        },
        EventModel::RefreshCompleted { request_id, provider_id, result } => {
            reveal(AppModel::refresh_completed);
        },
        EventModel::ResourceShellStarted { session_id } => {
            reveal(AppModel::start_ended);
        },
        EventModel::ResourceShellStartFailed { session_id, reason } => {
            reveal(AppModel::start_ended);
        },
        EventModel::ResourceShellExited { session_id } => {
            reveal(AppModel::shell_exited);
            if let Some(i) = first_position(
                session_ids(app.state.resource_shell_sessions),
                session_id,
            ) {
                lemma_refreshed_takes_at_most_one(app.with_lifecycle(i, LifecycleModel::Exited));
            }
        },
        EventModel::ResourceCommandCompleted {
            request_id,
            provider_id,
            target,
            command,
            result,
        } => {
            reveal(AppModel::command_completed);
            if let Some(i) = first_position(
                running_keys(app.state.running_commands),
                (request_id, provider_id, target, command),
            ) {
                let taken = app.with_state(
                    StateModel {
                        running_commands: app.state.running_commands.remove(i),
                        ..app.state
                    },
                );
                lemma_refreshed_takes_at_most_one(taken.with_error(None));
            }
        },
        EventModel::ResourceDetailsCompleted {
            request_id,
            provider_id,
            target,
            view_id,
            result,
        } => {
            reveal(AppModel::details_completed);
        },
    }
}

proof fn lemma_carried_out_takes_none(app: AppModel, command: Command)
    ensures
        app.carried_out(command).next_request_id == app.next_request_id,
        app.carried_out(command).quit_requested == (app.quit_requested || command
            == Command::Quit),
{
    reveal(AppModel::carried_out);
    match command {
        Command::ToggleHelp => {
            reveal(AppModel::help_toggled);
        },
        Command::MovePaneBoundaryLeft | Command::MovePaneBoundaryRight => {
            reveal(AppModel::boundary_resized);
        },
        Command::ReleasePaneBoundary => {
            reveal(AppModel::boundary_released);
        },
        Command::FocusResourcePanel(_) => {
            reveal(AppModel::panel_focused);
        },
        Command::FocusNextPane | Command::FocusPreviousPane => {
            reveal(AppModel::focus_cycled);
            reveal(AppModel::pane_focused);
            reveal(AppModel::panel_focused);
        },
        Command::SelectNextFast | Command::SelectPreviousFast => {
            reveal(AppModel::selection_moved);
        },
        Command::NextDetailView | Command::PreviousDetailView => {
            reveal(AppModel::tab_moved);
        },
        Command::ScrollDetailsDown | Command::ScrollDetailsUp => {
            reveal(AppModel::details_scrolled);
        },
        Command::CopyDetails => {
            reveal(AppModel::details_copied);
        },
        Command::BeginDetailsSelection { .. } => {
            reveal(AppModel::selection_begun);
        },
        Command::ExtendDetailsSelection { .. } => {
            reveal(AppModel::selection_extended);
        },
        Command::ExtendDetailsSelectionAtEdge { .. } => {
            reveal(AppModel::selection_extended_at_edge);
        },
        Command::OpenShell => {
            reveal(AppModel::shell_opened);
            reveal(AppModel::shell_started);
        },
        Command::StartResourceShell => {
            reveal(AppModel::shell_started);
        },
        Command::ToggleResourceShellSize => {
            reveal(AppModel::shell_size_toggled);
        },
        Command::Cancel => {
            reveal(AppModel::cancelled);
        },
        Command::SelectResource { .. } => {
            reveal(AppModel::resource_selected);
        },
        Command::ActivateDetailView(_) => {
            reveal(AppModel::tab_activated);
        },
        Command::ScrollResourcePanelUp(_) | Command::ScrollResourcePanelDown(_) => {
            reveal(AppModel::panel_scrolled);
        },
        _ => {},
    }
}

/// A Command takes at most one request identity before the details follow.
pub proof fn lemma_dispatching_allocates_at_most_one(app: AppModel, command: Command)
    requires
        app.can_allocate(),
    ensures
        app.numbers_at_most_one(app.dispatched(command)),
{
    reveal(AppModel::dispatched);
    let left = app.selection_left(command);
    assert(left.next_request_id == app.next_request_id) by {
        reveal(AppModel::selection_left);
    }
    match command {
        Command::Refresh => {
            lemma_refreshed_takes_at_most_one(left);
        },
        Command::SelectNext => {
            reveal(AppModel::selected_by_focus);
            reveal(AppModel::selection_moved);
            lemma_provider_moved_takes_at_most_one(left, 1);
        },
        Command::SelectPrevious => {
            reveal(AppModel::selected_by_focus);
            reveal(AppModel::selection_moved);
            lemma_provider_moved_takes_at_most_one(left, -1);
        },
        Command::NextWorkspace => {
            lemma_provider_moved_takes_at_most_one(left, 1);
        },
        Command::PreviousWorkspace => {
            lemma_provider_moved_takes_at_most_one(left, -1);
        },
        Command::Confirm => {
            reveal(AppModel::confirmed);
            reveal(AppModel::command_dispatched);
        },
        Command::Resource(_) => {
            reveal(AppModel::resource_command);
            reveal(AppModel::command_dispatched);
        },
        Command::ActivateProviderWorkspace(index) => {
            lemma_activated_takes_at_most_one(
                left.with_focused_pane(FocusedPane::Providers),
                index,
            );
        },
        _ => {
            lemma_carried_out_takes_none(left, command);
        },
    }
}

impl AppModel {
    /// The Active Workspace is one of the Workspaces, and there is one as soon
    /// as any Provider was discovered.
    pub open spec fn index_fits(self) -> bool {
        match self.state.active_provider {
            Some(active) => active < self.state.providers.len(),
            None => self.state.providers.len() == 0 && self.pending_refreshes.len() == 0,
        }
    }

    /// At most one refresh is pending, and it is the Active Workspace's.
    pub open spec fn pending_fits(self) -> bool {
        &&& self.pending_refreshes.len() <= 1
        &&& self.pending_refreshes.len() == 1 ==> {
            &&& self.pending_refreshes[0].0.0 < self.next_request_id
            &&& self.active_workspace() matches Some(workspace) && workspace.provider.id
                == self.pending_refreshes[0].1
        }
    }

    /// Every presentation choice fits the snapshot it was made in.
    pub open spec fn choices_fit(self) -> bool {
        forall|i: int|
            0 <= i < self.state.providers.len() ==> (#[trigger] self.state.providers[i]).consistent()
    }

    /// Every running Command has a request identity of its own.
    pub open spec fn running_fits(self) -> bool {
        &&& forall|i: int|
            0 <= i < self.state.running_commands.len() ==> (
            #[trigger] self.state.running_commands[i]).request_id.0 < self.next_request_id
        &&& forall|i: int, j: int|
            0 <= i < j < self.state.running_commands.len() ==> (
            #[trigger] self.state.running_commands[i]).request_id != (
            #[trigger] self.state.running_commands[j]).request_id
    }

    /// Every session has an identity of its own, and a Resource has one session
    /// at most.
    pub open spec fn sessions_fit(self) -> bool {
        &&& forall|i: int|
            0 <= i < self.state.resource_shell_sessions.len() ==> (
            #[trigger] self.state.resource_shell_sessions[i]).id.0 < self.next_session_id
        &&& forall|i: int, j: int|
            0 <= i < j < self.state.resource_shell_sessions.len() ==> {
                let first = #[trigger] self.state.resource_shell_sessions[i];
                let second = #[trigger] self.state.resource_shell_sessions[j];
                first.id != second.id && !second.is_for(first.provider_id, first.target)
            }
    }

    /// What holds of the application between any two events and Commands.
    pub open spec fn well_formed(self) -> bool {
        &&& self.index_fits()
        &&& self.pending_fits()
        &&& self.choices_fit()
        &&& self.running_fits()
        &&& self.sessions_fit()
        &&& self.state.pane_boundary.in_range()
    }
}

/// A new application is well formed, whatever its Keybindings.
pub proof fn law_a_new_application_is_well_formed(
    registry: Seq<CommandModel>,
    boundary: BoundaryModel,
)
    requires
        boundary.in_range(),
    ensures
        AppModel::initial(registry, boundary).well_formed(),
        AppModel::initial(registry, boundary).can_allocate(),
{
}

/// Replacing the Active Workspace by one of the same Provider whose choices fit
/// keeps the application well formed.
proof fn lemma_active_replaced(app: AppModel, workspace: WorkspaceModel)
    requires
        app.well_formed(),
        app.active_workspace() is Some,
        workspace.consistent(),
        workspace.provider == app.active_workspace()->0.provider,
    ensures
        app.with_active(workspace).well_formed(),
        app.with_active(workspace).active_workspace() == Some(workspace),
{
    let active = app.state.active_provider->0 as int;
    let after = app.with_active(workspace);
    assert(after.state.providers == app.state.providers.update(active, workspace));
    assert forall|i: int| 0 <= i < after.state.providers.len() implies (
    #[trigger] after.state.providers[i]).consistent() by {
        if i != active {
            assert(after.state.providers[i] == app.state.providers[i]);
        }
    }
}

/// Replacing any Workspace by one of the same Provider whose choices fit keeps
/// the application well formed.
proof fn lemma_provider_replaced(app: AppModel, p: int, workspace: WorkspaceModel)
    requires
        app.well_formed(),
        0 <= p < app.state.providers.len(),
        workspace.consistent(),
        workspace.provider == app.state.providers[p].provider,
    ensures
        app.with_provider(p, workspace).well_formed(),
{
    let after = app.with_provider(p, workspace);
    assert forall|i: int| 0 <= i < after.state.providers.len() implies (
    #[trigger] after.state.providers[i]).consistent() by {
        if i != p {
            assert(after.state.providers[i] == app.state.providers[i]);
        }
    }
}

proof fn lemma_active_is_consistent(app: AppModel)
    requires
        app.well_formed(),
    ensures
        app.active_workspace() matches Some(workspace) ==> workspace.consistent(),
{
    if let Some(active) = app.state.active_provider {
        assert(app.state.providers[active as int].consistent());
    }
}

proof fn lemma_refresh_keeps_well_formed(app: AppModel)
    requires
        app.well_formed(),
        app.next_request_id < u64::MAX,
    ensures
        app.refreshed().0.well_formed(),
{
    reveal(AppModel::refreshed);
    reveal(AppModel::refresh_started);
    if let Some(workspace) = app.active_workspace() {
        if app.pending_refreshes.len() == 1 {
            assert(pending_providers(app.pending_refreshes)[0] == workspace.provider.id);
        }
    }
}

pub(crate) proof fn lemma_nothing_pending_elsewhere(app: AppModel, provider_id: Seq<char>)
    requires
        app.pending_refreshes.len() <= 1,
        app.pending_refreshes.len() == 1 ==> app.pending_refreshes[0].1 == provider_id,
    ensures
        pending_without(app.pending_refreshes, provider_id).len() == 0,
{
    reveal_with_fuel(pending_without, 2);
}

proof fn lemma_activation_keeps_well_formed(app: AppModel, index: usize)
    requires
        app.well_formed(),
        app.next_request_id < u64::MAX,
        index < app.state.providers.len(),
    ensures
        app.activated(index).0.well_formed(),
{
    reveal(AppModel::activated);
    reveal(AppModel::active_left);
    if app.state.active_provider != Some(index) {
        lemma_active_is_consistent(app);
        let workspace = app.active_workspace()->0;
        lemma_nothing_pending_elsewhere(app, workspace.provider.id);
        let quiet = workspace.without_pending_detail();
        assert(quiet.focused_panel() == workspace.focused_panel());
        assert(quiet.consistent());
        lemma_active_replaced(app, quiet);
        let left = app.active_left();
        assert(left.pending_refreshes.len() == 0);
        assert(left.state == app.with_active(quiet).state);
        let moved = left.with_state(
            StateModel { active_provider: Some(index), ..left.state },
        );
        assert(moved.well_formed());
        lemma_refresh_keeps_well_formed(moved);
    }
}

proof fn lemma_provider_move_keeps_well_formed(app: AppModel, delta: int)
    requires
        app.well_formed(),
        app.next_request_id < u64::MAX,
    ensures
        app.provider_moved(delta).0.well_formed(),
{
    reveal(AppModel::provider_moved);
    let count = app.state.providers.len() as int;
    if let Some(active) = app.state.active_provider {
        if count >= 2 {
            let next = (active + delta) % count;
            assert(0 <= next < count);
            lemma_activation_keeps_well_formed(app, next as usize);
        }
    }
}

proof fn lemma_synced_keeps_well_formed(app: AppModel)
    requires
        app.well_formed(),
        app.next_request_id < u64::MAX,
    ensures
        app.details_synced().0.well_formed(),
{
    reveal(AppModel::details_synced);
    let request_id = ProviderRequestId(app.next_request_id);
    if let Some(workspace) = app.active_workspace() {
        lemma_active_is_consistent(app);
        let synced = workspace.with_visible_details(request_id);
        assert(synced.focused_panel() == workspace.focused_panel());
        assert(synced.consistent());
        lemma_active_replaced(app, synced);
    }
}

proof fn lemma_follow_up_keeps_well_formed(app: AppModel, requests: Seq<RequestModel>)
    requires
        app.well_formed(),
        app.next_request_id < u64::MAX,
    ensures
        AppModel::followed_up((app, requests)).0.well_formed(),
{
    lemma_synced_keeps_well_formed(app);
    reveal(AppModel::bar_updated);
}

proof fn lemma_lifecycle_keeps_well_formed(app: AppModel, i: int, lifecycle: LifecycleModel)
    requires
        app.well_formed(),
        0 <= i < app.state.resource_shell_sessions.len(),
    ensures
        app.with_lifecycle(i, lifecycle).well_formed(),
{
    let sessions = app.state.resource_shell_sessions;
    let after = app.with_lifecycle(i, lifecycle);
    let changed = after.state.resource_shell_sessions;
    assert forall|j: int| 0 <= j < changed.len() implies changed[j].id == sessions[j].id
        && changed[j].provider_id == sessions[j].provider_id && changed[j].target
        == sessions[j].target by {}
    assert(after.active_workspace() == app.active_workspace());
    assert(after.sessions_fit()) by {
        assert forall|j: int| 0 <= j < changed.len() implies (#[trigger] changed[j]).id.0
            < app.next_session_id by {
            assert(sessions[j].id.0 < app.next_session_id);
        }
        assert forall|j: int, k: int| 0 <= j < k < changed.len() implies {
            let first = #[trigger] changed[j];
            let second = #[trigger] changed[k];
            first.id != second.id && !second.is_for(first.provider_id, first.target)
        } by {
            assert(sessions[j].id != sessions[k].id && !sessions[k].is_for(
                sessions[j].provider_id,
                sessions[j].target,
            ));
        }
    }
}

proof fn lemma_dispatch_keeps_well_formed(app: AppModel, invocation: InvocationModel)
    requires
        app.well_formed(),
        app.next_request_id < u64::MAX,
    ensures
        app.command_dispatched(invocation).0.well_formed(),
{
    reveal(AppModel::command_dispatched);
    let after = app.command_dispatched(invocation).0;
    let running = app.state.running_commands;
    assert(after.active_workspace() == app.active_workspace());
    assert forall|i: int, j: int| 0 <= i < j < after.state.running_commands.len() implies (
    #[trigger] after.state.running_commands[i]).request_id != (
    #[trigger] after.state.running_commands[j]).request_id by {
        if j == running.len() {
            assert(running[i].request_id.0 < app.next_request_id);
        }
    }
}

/// The pending refreshes after one was taken.
proof fn lemma_pending_taken(app: AppModel, i: int)
    requires
        app.well_formed(),
        0 <= i < app.pending_refreshes.len(),
    ensures
        (AppModel { pending_refreshes: app.pending_refreshes.remove(i), ..app }).well_formed(),
{
    let taken = AppModel { pending_refreshes: app.pending_refreshes.remove(i), ..app };
    assert(taken.pending_refreshes.len() == 0);
    assert(taken.active_workspace() == app.active_workspace());
}

proof fn lemma_refresh_completed_keeps_well_formed(
    app: AppModel,
    request_id: ProviderRequestId,
    provider_id: Seq<char>,
    result: Result<Seq<PanelModel>, Seq<char>>,
)
    requires
        app.well_formed(),
    ensures
        app.refresh_completed(request_id, provider_id, result).well_formed(),
{
    reveal(AppModel::refresh_completed);
    lemma_first_position(pending_ids(app.pending_refreshes), request_id);
    lemma_first_position(provider_ids(app.state.providers), provider_id);
    if let Some(i) = first_position(pending_ids(app.pending_refreshes), request_id) {
        lemma_pending_taken(app, i);
        let taken = AppModel { pending_refreshes: app.pending_refreshes.remove(i), ..app };
        if let Some(p) = first_position(provider_ids(app.state.providers), provider_id) {
            let workspace = app.state.providers[p];
            assert(workspace.consistent());
            match result {
                Ok(panels) => {
                    law_reconciling_makes_choices_fit(workspace, panels);
                    lemma_provider_replaced(taken, p, workspace.reconciled(panels));
                    lemma_provider_replaced(
                        taken,
                        p,
                        workspace.with_rejected_snapshot(
                            panel_overflow_text(workspace.provider.name, panels.len()),
                        ),
                    );
                },
                Err(message) => {
                    lemma_provider_replaced(taken, p, workspace.with_load_error(message));
                },
            }
        }
    }
}

/// No event takes the application out of its well-formed states.
pub proof fn law_events_keep_the_application_well_formed(app: AppModel, event: EventModel)
    requires
        app.well_formed(),
        app.can_allocate(),
    ensures
        app.updated(event).0.well_formed(),
{
    lemma_event_keeps_well_formed(app, event);
    lemma_applying_allocates_at_most_one(app, event);
    lemma_follow_up_keeps_well_formed(app.applied(event).0, app.applied(event).1);
}

proof fn lemma_event_keeps_well_formed(app: AppModel, event: EventModel)
    requires
        app.well_formed(),
        app.can_allocate(),
    ensures
        app.applied(event).0.well_formed(),
{
    reveal(AppModel::applied);
    match event {
        EventModel::ProviderDiscovered { provider, error } => {
            lemma_discovery_keeps_well_formed(app, provider, error);
        },
        EventModel::RefreshTimerElapsed => {
            lemma_refresh_keeps_well_formed(app);
        },
        EventModel::RefreshCompleted { request_id, provider_id, result } => {
            lemma_refresh_completed_keeps_well_formed(app, request_id, provider_id, result);
        },
        EventModel::ResourceShellStarted { session_id } => {
            lemma_start_ended_keeps_well_formed(app, session_id, LifecycleModel::Running);
        },
        EventModel::ResourceShellStartFailed { session_id, reason } => {
            lemma_start_ended_keeps_well_formed(
                app,
                session_id,
                LifecycleModel::StartFailed(reason),
            );
        },
        EventModel::ResourceShellExited { session_id } => {
            reveal(AppModel::shell_exited);
            lemma_first_position(session_ids(app.state.resource_shell_sessions), session_id);
            if let Some(i) = first_position(
                session_ids(app.state.resource_shell_sessions),
                session_id,
            ) {
                lemma_lifecycle_keeps_well_formed(app, i, LifecycleModel::Exited);
                lemma_refresh_keeps_well_formed(app.with_lifecycle(i, LifecycleModel::Exited));
            }
        },
        EventModel::ResourceCommandCompleted {
            request_id,
            provider_id,
            target,
            command,
            result,
        } => {
            lemma_completed_command_keeps_well_formed(
                app,
                request_id,
                provider_id,
                target,
                command,
                result,
            );
        },
        EventModel::ResourceDetailsCompleted {
            request_id,
            provider_id,
            target,
            view_id,
            result,
        } => {
            reveal(AppModel::details_completed);
            lemma_first_position(provider_ids(app.state.providers), provider_id);
            let completion = CompletionModel {
                load: LoadRequestModel {
                    request_id,
                    provider_id,
                    target: DetailTargetModel { resource: target, view_id },
                },
                result,
            };
            if let Some(p) = first_position(provider_ids(app.state.providers), provider_id) {
                let workspace = app.state.providers[p];
                assert(workspace.consistent());
                let completed = workspace.with_completion(completion);
                assert(completed.focused_panel() == workspace.focused_panel());
                assert(completed.consistent());
                lemma_provider_replaced(app, p, completed);
            }
        },
    }
}

proof fn lemma_start_ended_keeps_well_formed(
    app: AppModel,
    session_id: ResourceShellSessionId,
    lifecycle: LifecycleModel,
)
    requires
        app.well_formed(),
    ensures
        app.start_ended(session_id, lifecycle).well_formed(),
{
    reveal(AppModel::start_ended);
    lemma_first_position(session_ids(app.state.resource_shell_sessions), session_id);
    if let Some(i) = first_position(session_ids(app.state.resource_shell_sessions), session_id) {
        lemma_lifecycle_keeps_well_formed(app, i, lifecycle);
    }
}

proof fn lemma_discovery_keeps_well_formed(
    app: AppModel,
    provider: ProviderModel,
    error: Option<Seq<char>>,
)
    requires
        app.well_formed(),
        app.can_allocate(),
    ensures
        app.provider_discovered(provider, error).0.well_formed(),
{
    reveal(AppModel::provider_discovered);
    reveal(AppModel::refresh_started);
    let added = app.state.providers.push(WorkspaceModel::new(provider, error));
    assert forall|i: int| 0 <= i < added.len() implies (#[trigger] added[i]).consistent() by {
        if i < app.state.providers.len() {
            assert(added[i] == app.state.providers[i]);
        }
    }
}

proof fn lemma_completed_command_keeps_well_formed(
    app: AppModel,
    request_id: ProviderRequestId,
    provider_id: Seq<char>,
    target: TargetModel,
    command: ResourceCommand,
    result: Result<(), Seq<char>>,
)
    requires
        app.well_formed(),
        app.can_allocate(),
    ensures
        app.command_completed(request_id, provider_id, target, command, result).0.well_formed(),
{
    reveal(AppModel::command_completed);
    let key = (request_id, provider_id, target, command);
    lemma_first_position(running_keys(app.state.running_commands), key);
    if let Some(i) = first_position(running_keys(app.state.running_commands), key) {
        let running = app.state.running_commands;
        let fewer = running.remove(i);
        let taken = app.with_state(StateModel { running_commands: fewer, ..app.state });
        assert(taken.active_workspace() == app.active_workspace());
        assert(taken.running_fits()) by {
            assert forall|j: int| 0 <= j < fewer.len() implies fewer[j] == running[if j < i {
                j
            } else {
                j + 1
            }] by {}
        }
        assert(taken.well_formed());
        let succeeded = taken.with_error(None);
        assert(succeeded.active_workspace() == app.active_workspace());
        lemma_refresh_keeps_well_formed(succeeded);
    }
}

/// Two applications that differ in nothing the invariant speaks of.
pub(crate) proof fn lemma_untouched_keeps_well_formed(app: AppModel, after: AppModel)
    requires
        app.well_formed(),
        after.state.providers == app.state.providers,
        after.state.active_provider == app.state.active_provider,
        after.state.running_commands == app.state.running_commands,
        after.state.resource_shell_sessions == app.state.resource_shell_sessions,
        after.state.pane_boundary.in_range(),
        after.pending_refreshes == app.pending_refreshes,
        after.next_request_id == app.next_request_id,
        after.next_session_id == app.next_session_id,
    ensures
        after.well_formed(),
        after.active_workspace() == app.active_workspace(),
{
    assert(after.active_workspace() == app.active_workspace());
}

proof fn lemma_panel_focus_keeps_well_formed(app: AppModel, index: int)
    requires
        app.well_formed(),
    ensures
        app.panel_focused(index).well_formed(),
{
    reveal(AppModel::panel_focused);
    lemma_active_is_consistent(app);
    if let Some(workspace) = app.active_workspace() {
        if let Some(id) = workspace.panel_id_at(index) {
            law_focusing_keeps_choices_fitting(workspace, id);
            let focused = app.with_active(workspace.with_focus(id));
            lemma_active_replaced(app, workspace.with_focus(id));
            lemma_untouched_keeps_well_formed(
                focused,
                focused.with_focused_pane(FocusedPane::Resources),
            );
        }
    }
}

proof fn lemma_focus_cycle_keeps_well_formed(app: AppModel, delta: int)
    requires
        app.well_formed(),
    ensures
        app.focus_cycled(delta).well_formed(),
{
    reveal(AppModel::focus_cycled);
    reveal(AppModel::pane_focused);
    lemma_untouched_keeps_well_formed(app, app.with_focused_pane(FocusedPane::Providers));
    lemma_untouched_keeps_well_formed(app, app.with_focused_pane(FocusedPane::Details));
    let next = (app.pane_index() + delta) % (app.panel_count() + 2);
    lemma_panel_focus_keeps_well_formed(app, next - 1);
}

proof fn lemma_selection_move_keeps_well_formed(app: AppModel, delta: int)
    requires
        app.well_formed(),
    ensures
        app.selection_moved(delta).well_formed(),
{
    reveal(AppModel::selection_moved);
    lemma_active_is_consistent(app);
    if let Some(workspace) = app.active_workspace() {
        let moved = workspace.with_focused_selection_moved(delta);
        if let Some(panel_id) = workspace.focused_resource_panel {
            law_moving_keeps_choices_fitting(workspace, panel_id, delta);
        }
        lemma_active_replaced(app, moved);
    }
}

proof fn lemma_panel_scroll_keeps_well_formed(app: AppModel, panel: int, delta: int)
    requires
        app.well_formed(),
    ensures
        app.panel_scrolled(panel, delta).well_formed(),
{
    reveal(AppModel::panel_scrolled);
    lemma_active_is_consistent(app);
    if let Some(workspace) = app.active_workspace() {
        if let Some(panel_id) = workspace.panel_id_at(panel) {
            law_moving_keeps_choices_fitting(workspace, panel_id, delta);
        }
        lemma_active_replaced(app, workspace.with_selection_moved_at(panel, delta));
    }
}

proof fn lemma_tabs_keep_well_formed(app: AppModel, delta: int, index: int)
    requires
        app.well_formed(),
    ensures
        app.tab_moved(delta).well_formed(),
        app.tab_activated(index).well_formed(),
{
    reveal(AppModel::tab_moved);
    reveal(AppModel::tab_activated);
    let focused = app.with_focused_pane(FocusedPane::Details);
    lemma_untouched_keeps_well_formed(app, focused);
    lemma_active_is_consistent(app);
    if let Some(workspace) = app.active_workspace() {
        law_choosing_a_tab_keeps_choices_fitting(workspace, delta, index);
        lemma_active_replaced(app, workspace.with_tab_moved(delta));
        lemma_active_replaced(focused, workspace.with_tab_selected_at(index));
    }
}

/// Nothing done to the details disturbs a choice.
proof fn lemma_detail_changes_keep_choices(before: WorkspaceModel, after: WorkspaceModel)
    requires
        before.consistent(),
        after == (WorkspaceModel { details: after.details, ..before }),
    ensures
        after.consistent(),
        after.provider == before.provider,
{
    assert(after.focused_panel() == before.focused_panel());
}

proof fn lemma_details_keep_well_formed(app: AppModel, delta: int, line: u16, column: u16)
    requires
        app.well_formed(),
    ensures
        app.details_scrolled(delta).well_formed(),
        app.selection_begun(line, column).well_formed(),
        app.selection_extended(line, column).well_formed(),
{
    reveal(AppModel::details_scrolled);
    reveal(AppModel::selection_begun);
    reveal(AppModel::selection_extended);
    let focused = app.with_focused_pane(FocusedPane::Details);
    lemma_untouched_keeps_well_formed(app, focused);
    lemma_active_is_consistent(app);
    if let Some(workspace) = app.active_workspace() {
        let scrolled = workspace.with_details_scrolled(delta);
        let begun = workspace.with_selection_begun(line, column);
        let extended = workspace.with_selection_extended(line, column);
        lemma_detail_changes_keep_choices(workspace, scrolled);
        lemma_detail_changes_keep_choices(workspace, begun);
        lemma_detail_changes_keep_choices(workspace, extended);
        lemma_active_replaced(app, scrolled);
        lemma_active_replaced(focused, begun);
        lemma_active_replaced(app, extended);
    }
}

proof fn lemma_edge_keeps_well_formed(app: AppModel, above: bool, column: u16, visible_rows: u16)
    requires
        app.well_formed(),
    ensures
        app.selection_extended_at_edge(above, column, visible_rows).well_formed(),
{
    reveal(AppModel::selection_extended_at_edge);
    lemma_active_is_consistent(app);
    if let Some(workspace) = app.active_workspace() {
        let scrolled = workspace.with_details_scrolled(
            if above {
                -1
            } else {
                1
            },
        );
        let extended = scrolled.with_selection_extended(
            if above || visible_rows == 0 {
                0
            } else {
                (visible_rows - 1) as u16
            },
            column,
        );
        lemma_detail_changes_keep_choices(workspace, scrolled);
        lemma_detail_changes_keep_choices(scrolled, extended);
        lemma_active_replaced(app, extended);
    }
}

proof fn lemma_selecting_keeps_well_formed(app: AppModel, panel: int, resource: int)
    requires
        app.well_formed(),
    ensures
        app.resource_selected(panel, resource).well_formed(),
{
    reveal(AppModel::resource_selected);
    lemma_active_is_consistent(app);
    if let Some(workspace) = app.active_workspace() {
        if let Some(id) = workspace.panel_id_at(panel) {
            law_focusing_keeps_choices_fitting(workspace, id);
            let focused = workspace.with_focus(id);
            law_selecting_keeps_choices_fitting(focused, resource);
            let selected = focused.with_resource_selected_at(resource);
            lemma_active_replaced(app, selected);
            lemma_untouched_keeps_well_formed(
                app.with_active(selected),
                app.with_active(selected).with_focused_pane(FocusedPane::Resources),
            );
        }
    }
}

proof fn lemma_sessions_without(
    sessions: Seq<SessionModel>,
    provider_id: Seq<char>,
    target: TargetModel,
)
    ensures
        forall|i: int|
            0 <= i < sessions_without(sessions, provider_id, target).len() ==> sessions.contains(
                #[trigger] sessions_without(sessions, provider_id, target)[i],
            ) && !sessions_without(sessions, provider_id, target)[i].is_for(provider_id, target),
        (forall|i: int, j: int|
            0 <= i < j < sessions.len() ==> {
                let first = #[trigger] sessions[i];
                let second = #[trigger] sessions[j];
                first.id != second.id && !second.is_for(first.provider_id, first.target)
            }) ==> forall|i: int, j: int|
            0 <= i < j < sessions_without(sessions, provider_id, target).len() ==> {
                let first = #[trigger] sessions_without(sessions, provider_id, target)[i];
                let second = #[trigger] sessions_without(sessions, provider_id, target)[j];
                first.id != second.id && !second.is_for(first.provider_id, first.target)
            },
    decreases sessions.len(),
{
    if sessions.len() > 0 {
        let shorter = sessions.drop_last();
        lemma_sessions_without(shorter, provider_id, target);
        let kept = sessions_without(sessions, provider_id, target);
        let earlier = sessions_without(shorter, provider_id, target);
        assert forall|i: int| 0 <= i < kept.len() implies sessions.contains(#[trigger] kept[i])
            && !kept[i].is_for(provider_id, target) by {
            if i < earlier.len() {
                assert(kept[i] == earlier[i]);
                assert(shorter.contains(earlier[i]));
                let k = choose|k: int| 0 <= k < shorter.len() && shorter[k] == earlier[i];
                assert(sessions[k] == earlier[i]);
            } else {
                assert(kept[i] == sessions[sessions.len() - 1]);
            }
        }
        if forall|i: int, j: int|
            0 <= i < j < sessions.len() ==> {
                let first = #[trigger] sessions[i];
                let second = #[trigger] sessions[j];
                first.id != second.id && !second.is_for(first.provider_id, first.target)
            } {
            assert forall|i: int, j: int| 0 <= i < j < shorter.len() implies {
                let first = #[trigger] shorter[i];
                let second = #[trigger] shorter[j];
                first.id != second.id && !second.is_for(first.provider_id, first.target)
            } by {
                assert(shorter[i] == sessions[i] && shorter[j] == sessions[j]);
            }
            assert forall|i: int, j: int| 0 <= i < j < kept.len() implies {
                let first = #[trigger] kept[i];
                let second = #[trigger] kept[j];
                first.id != second.id && !second.is_for(first.provider_id, first.target)
            } by {
                assert(kept[i] == earlier[i]);
                if j == earlier.len() {
                    assert(shorter.contains(earlier[i]));
                    let k = choose|k: int| 0 <= k < shorter.len() && shorter[k] == earlier[i];
                    assert(sessions[k] == earlier[i]);
                    assert(kept[j] == sessions[sessions.len() - 1]);
                } else {
                    assert(kept[j] == earlier[j]);
                }
            }
        }
    }
}

/// A session about to start has the next identity.
proof fn lemma_startable_session(app: AppModel)
    ensures
        app.startable_session() matches Some((session, process)) ==> session.id
            == ResourceShellSessionId(app.next_session_id) && session.lifecycle is Starting,
{
    reveal(AppModel::startable_session);
}

proof fn lemma_session_replaced(sessions: Seq<SessionModel>, session: SessionModel)
    requires
        forall|i: int| 0 <= i < sessions.len() ==> (#[trigger] sessions[i]).id.0 < session.id.0,
        forall|i: int, j: int|
            0 <= i < j < sessions.len() ==> {
                let first = #[trigger] sessions[i];
                let second = #[trigger] sessions[j];
                first.id != second.id && !second.is_for(first.provider_id, first.target)
            },
    ensures
        ({
            let now = sessions_without(sessions, session.provider_id, session.target).push(session);
            &&& forall|i: int| 0 <= i < now.len() ==> (#[trigger] now[i]).id.0 <= session.id.0
            &&& forall|i: int, j: int|
                0 <= i < j < now.len() ==> {
                    let first = #[trigger] now[i];
                    let second = #[trigger] now[j];
                    first.id != second.id && !second.is_for(first.provider_id, first.target)
                }
        }),
{
    let kept = sessions_without(sessions, session.provider_id, session.target);
    let now = kept.push(session);
    lemma_sessions_without(sessions, session.provider_id, session.target);
    assert forall|i: int| 0 <= i < kept.len() implies (#[trigger] kept[i]).id.0 < session.id.0
        && !kept[i].is_for(session.provider_id, session.target) by {
        assert(sessions.contains(kept[i]));
        let k = choose|k: int| 0 <= k < sessions.len() && sessions[k] == kept[i];
        assert(sessions[k].id.0 < session.id.0);
    }
    assert forall|i: int| 0 <= i < now.len() implies (#[trigger] now[i]).id.0 <= session.id.0 by {
        if i < kept.len() {
            assert(now[i] == kept[i]);
        }
    }
    assert forall|i: int, j: int| 0 <= i < j < now.len() implies {
        let first = #[trigger] now[i];
        let second = #[trigger] now[j];
        first.id != second.id && !second.is_for(first.provider_id, first.target)
    } by {
        assert(now[i] == kept[i]);
        if j < kept.len() {
            assert(now[j] == kept[j]);
        }
    }
}

proof fn lemma_shell_start_keeps_well_formed(app: AppModel)
    requires
        app.well_formed(),
        app.next_session_id < u64::MAX,
    ensures
        app.shell_started().well_formed(),
{
    reveal(AppModel::shell_started);
    lemma_startable_session(app);
    if let Some((session, process)) = app.startable_session() {
        lemma_session_replaced(app.state.resource_shell_sessions, session);
        let after = app.shell_started();
        assert(after.active_workspace() == app.active_workspace());
        assert(after.sessions_fit());
    }
}

proof fn lemma_shell_open_keeps_well_formed(app: AppModel)
    requires
        app.well_formed(),
        app.next_session_id < u64::MAX,
    ensures
        app.shell_opened().well_formed(),
{
    reveal(AppModel::shell_opened);
    lemma_active_is_consistent(app);
    if let Some(workspace) = app.active_workspace() {
        if workspace.offers_shell() {
            law_choosing_a_tab_keeps_choices_fitting(workspace, 0, 0);
            let shown = app.with_active(workspace.with_shell_tab());
            lemma_active_replaced(app, workspace.with_shell_tab());
            let opened = shown.with_state(
                StateModel {
                    focused_pane: FocusedPane::Details,
                    resource_shell_presentation: ResourceShellPresentation::Enlarged,
                    ..shown.state
                },
            );
            lemma_untouched_keeps_well_formed(shown, opened);
            lemma_shell_start_keeps_well_formed(opened);
        }
    }
}

proof fn lemma_carrying_out_keeps_well_formed(app: AppModel, command: Command)
    requires
        app.well_formed(),
        app.can_allocate(),
    ensures
        app.carried_out(command).well_formed(),
{
    reveal(AppModel::carried_out);
    let after = app.carried_out(command);
    match command {
        Command::ToggleHelp => {
            reveal(AppModel::help_toggled);
            lemma_untouched_keeps_well_formed(app, after);
        },
        Command::MovePaneBoundaryLeft | Command::MovePaneBoundaryRight => {
            reveal(AppModel::boundary_resized);
            lemma_untouched_keeps_well_formed(app, after);
        },
        Command::GrabPaneBoundary(_) | Command::SetPaneBoundary(_) | Command::FocusProviders
        | Command::FocusDetails | Command::Quit => {
            lemma_untouched_keeps_well_formed(app, after);
        },
        Command::ReleasePaneBoundary => {
            reveal(AppModel::boundary_released);
            lemma_untouched_keeps_well_formed(app, after);
        },
        Command::FocusResourcePanel(index) => {
            lemma_panel_focus_keeps_well_formed(app, index as int);
        },
        Command::FocusNextPane => {
            lemma_focus_cycle_keeps_well_formed(app, 1);
        },
        Command::FocusPreviousPane => {
            lemma_focus_cycle_keeps_well_formed(app, -1);
        },
        Command::SelectNextFast => {
            lemma_selection_move_keeps_well_formed(app, FAST_SELECTION_STEP as int);
        },
        Command::SelectPreviousFast => {
            lemma_selection_move_keeps_well_formed(app, -FAST_SELECTION_STEP);
        },
        Command::NextDetailView => {
            lemma_tabs_keep_well_formed(app, 1, 0);
        },
        Command::PreviousDetailView => {
            lemma_tabs_keep_well_formed(app, -1, 0);
        },
        Command::ScrollDetailsDown => {
            lemma_details_keep_well_formed(app, DETAIL_SCROLL_LINES as int, 0, 0);
        },
        Command::ScrollDetailsUp => {
            lemma_details_keep_well_formed(app, -DETAIL_SCROLL_LINES, 0, 0);
        },
        Command::CopyDetails => {
            reveal(AppModel::details_copied);
            lemma_untouched_keeps_well_formed(app, after);
        },
        Command::BeginDetailsSelection { line, column } => {
            lemma_details_keep_well_formed(app, 0, line, column);
        },
        Command::ExtendDetailsSelection { line, column } => {
            lemma_details_keep_well_formed(app, 0, line, column);
        },
        Command::ExtendDetailsSelectionAtEdge { above, column, visible_rows } => {
            lemma_edge_keeps_well_formed(app, above, column, visible_rows);
        },
        Command::OpenShell => {
            lemma_shell_open_keeps_well_formed(app);
        },
        Command::StartResourceShell => {
            lemma_shell_start_keeps_well_formed(app);
        },
        Command::ToggleResourceShellSize => {
            reveal(AppModel::shell_size_toggled);
            lemma_untouched_keeps_well_formed(app, after);
        },
        Command::Cancel => {
            reveal(AppModel::cancelled);
            lemma_untouched_keeps_well_formed(app, after);
        },
        Command::SelectResource { panel, resource } => {
            lemma_selecting_keeps_well_formed(app, panel as int, resource as int);
        },
        Command::ActivateDetailView(index) => {
            lemma_tabs_keep_well_formed(app, 0, index as int);
        },
        Command::ScrollResourcePanelUp(panel) => {
            lemma_panel_scroll_keeps_well_formed(app, panel as int, -1);
        },
        Command::ScrollResourcePanelDown(panel) => {
            lemma_panel_scroll_keeps_well_formed(app, panel as int, 1);
        },
        _ => {},
    }
}

proof fn lemma_leaving_selection_keeps_well_formed(app: AppModel, command: Command)
    requires
        app.well_formed(),
    ensures
        app.selection_left(command).well_formed(),
        app.selection_left(command).next_request_id == app.next_request_id,
        app.selection_left(command).next_session_id == app.next_session_id,
{
    reveal(AppModel::selection_left);
    lemma_active_is_consistent(app);
    if let Some(workspace) = app.active_workspace() {
        lemma_detail_changes_keep_choices(workspace, workspace.without_selection());
        lemma_active_replaced(app, workspace.without_selection());
    }
}

proof fn lemma_dispatching_keeps_well_formed(app: AppModel, command: Command)
    requires
        app.well_formed(),
        app.can_allocate(),
    ensures
        app.dispatched(command).0.well_formed(),
{
    reveal(AppModel::dispatched);
    let left = app.selection_left(command);
    lemma_leaving_selection_keeps_well_formed(app, command);
    match command {
        Command::Refresh => {
            lemma_refresh_keeps_well_formed(left);
        },
        Command::SelectNext => {
            reveal(AppModel::selected_by_focus);
            lemma_provider_move_keeps_well_formed(left, 1);
            lemma_selection_move_keeps_well_formed(left, 1);
        },
        Command::SelectPrevious => {
            reveal(AppModel::selected_by_focus);
            lemma_provider_move_keeps_well_formed(left, -1);
            lemma_selection_move_keeps_well_formed(left, -1);
        },
        Command::NextWorkspace => {
            lemma_provider_move_keeps_well_formed(left, 1);
        },
        Command::PreviousWorkspace => {
            lemma_provider_move_keeps_well_formed(left, -1);
        },
        Command::Confirm => {
            reveal(AppModel::confirmed);
            lemma_untouched_keeps_well_formed(left, left.with_error(None));
            if let Some(invocation) = left.state.confirmation {
                let answered = left.with_state(
                    StateModel { confirmation: None, ..left.state },
                );
                lemma_untouched_keeps_well_formed(left, answered);
                lemma_dispatch_keeps_well_formed(answered, invocation);
            }
        },
        Command::Resource(operation) => {
            reveal(AppModel::resource_command);
            if let Some(invocation) = left.invocation(operation) {
                lemma_untouched_keeps_well_formed(
                    left,
                    left.with_state(
                        StateModel { confirmation: Some(invocation), ..left.state },
                    ),
                );
                lemma_dispatch_keeps_well_formed(left, invocation);
            }
        },
        Command::ActivateProviderWorkspace(index) => {
            let focused = left.with_focused_pane(FocusedPane::Providers);
            lemma_untouched_keeps_well_formed(left, focused);
            if index < left.state.providers.len() {
                lemma_activation_keeps_well_formed(focused, index);
            }
        },
        _ => {
            lemma_carrying_out_keeps_well_formed(left, command);
        },
    }
}

/// No Command takes the application out of its well-formed states.
pub proof fn law_commands_keep_the_application_well_formed(app: AppModel, command: Command)
    requires
        app.well_formed(),
        app.can_allocate(),
    ensures
        app.invoked(command).0.well_formed(),
{
    lemma_dispatching_keeps_well_formed(app, command);
    lemma_dispatching_allocates_at_most_one(app, command);
    lemma_follow_up_keeps_well_formed(app.dispatched(command).0, app.dispatched(command).1);
}

proof fn lemma_follow_up_numbers(app: AppModel, outcome: Outcome)
    requires
        app.numbers_at_most_one(outcome),
        app.can_allocate(),
    ensures
        app.numbers(AppModel::followed_up(outcome)),
        AppModel::followed_up(outcome).1.len() <= 2,
{
    reveal(AppModel::details_synced);
    reveal(AppModel::bar_updated);
    let after = outcome.0;
    let (synced, loads) = after.details_synced();
    assert(loads.len() <= 1);
    let all = outcome.1 + loads;
    assert(AppModel::followed_up(outcome).1 == all);
    assert forall|i: int| 0 <= i < all.len() implies request_number(#[trigger] all[i])
        == app.next_request_id + i by {
        if i < outcome.1.len() {
            assert(all[i] == outcome.1[i]);
        } else {
            assert(all[i] == loads[i - outcome.1.len()]);
        }
    }
}

/// Every request has an identity that no earlier request had, whether an event
/// or a Command asked for it.
pub proof fn law_requests_have_fresh_identities(
    app: AppModel,
    event: EventModel,
    command: Command,
)
    requires
        app.can_allocate(),
    ensures
        app.numbers(app.updated(event)),
        app.numbers(app.invoked(command)),
{
    lemma_applying_allocates_at_most_one(app, event);
    lemma_follow_up_numbers(app, app.applied(event));
    lemma_dispatching_allocates_at_most_one(app, command);
    lemma_follow_up_numbers(app, app.dispatched(command));
}

/// After every event and every Command, what is held of Details describes what
/// is on screen.
pub proof fn law_details_follow_the_screen(app: AppModel, event: EventModel, command: Command)
    ensures
        app.updated(event).0.active_workspace() matches Some(workspace) ==> (workspace.details
            is Some ==> workspace.describes_visible()),
        app.invoked(command).0.active_workspace() matches Some(workspace) ==> (workspace.details
            is Some ==> workspace.describes_visible()),
{
    lemma_follow_up_describes(app.applied(event));
    lemma_follow_up_describes(app.dispatched(command));
}

proof fn lemma_follow_up_describes(outcome: Outcome)
    ensures
        AppModel::followed_up(outcome).0.active_workspace() matches Some(workspace) ==> (
        workspace.details is Some ==> workspace.describes_visible()),
{
    reveal(AppModel::details_synced);
    reveal(AppModel::bar_updated);
    let app = outcome.0;
    let request_id = ProviderRequestId(app.next_request_id);
    if let Some(workspace) = app.active_workspace() {
        law_details_describe_the_screen(workspace, request_id, request_id);
        let synced = workspace.with_visible_details(request_id);
        assert(app.with_active(synced).active_workspace() == Some(synced));
        assert(AppModel::followed_up(outcome).0.active_workspace() == Some(synced));
    } else {
        assert(AppModel::followed_up(outcome).0.active_workspace() is None);
    }
}

proof fn lemma_follow_up_keeps_focus(outcome: Outcome)
    ensures
        AppModel::followed_up(outcome).0.state.focused_pane == outcome.0.state.focused_pane,
{
    reveal(AppModel::details_synced);
    reveal(AppModel::bar_updated);
}

proof fn lemma_leaving_selection_keeps_focus(app: AppModel, command: Command)
    ensures
        app.selection_left(command).state.focused_pane == app.state.focused_pane,
{
    reveal(AppModel::selection_left);
}

proof fn lemma_scrolling_keeps_focus(app: AppModel, panel: int, delta: int)
    ensures
        app.panel_scrolled(panel, delta).state.focused_pane == app.state.focused_pane,
        app.details_scrolled(delta).state.focused_pane == app.state.focused_pane,
{
    reveal(AppModel::panel_scrolled);
    reveal(AppModel::details_scrolled);
}

/// Whether a Command is one that the wheel gives.
pub open spec fn scrolls(command: Command) -> bool {
    command is ScrollResourcePanelUp || command is ScrollResourcePanelDown || command
        == Command::ScrollDetailsUp || command == Command::ScrollDetailsDown
}

/// Pointing is not focusing: the wheel leaves the keyboard where the user left
/// it.
pub proof fn law_the_wheel_keeps_the_focus(app: AppModel, command: Command)
    requires
        scrolls(command),
    ensures
        app.invoked(command).0.state.focused_pane == app.state.focused_pane,
{
    let left = app.selection_left(command);
    lemma_leaving_selection_keeps_focus(app, command);
    lemma_follow_up_keeps_focus(app.dispatched(command));
    reveal(AppModel::dispatched);
    reveal(AppModel::carried_out);
    match command {
        Command::ScrollResourcePanelUp(panel) => {
            lemma_scrolling_keeps_focus(left, panel as int, -1);
        },
        Command::ScrollResourcePanelDown(panel) => {
            lemma_scrolling_keeps_focus(left, panel as int, 1);
        },
        Command::ScrollDetailsUp => {
            lemma_scrolling_keeps_focus(left, 0, -DETAIL_SCROLL_LINES);
        },
        _ => {
            lemma_scrolling_keeps_focus(left, 0, DETAIL_SCROLL_LINES as int);
        },
    }
}

/// A modal replaces the workspace scope, and the one drawn last answers first.
pub proof fn law_modals_answer_first(app: AppModel)
    ensures
        app.state.confirmation is Some ==> app.active_scope() == CommandScope::Confirmation,
        app.state.confirmation is None && app.state.command_error is Some ==> app.active_scope()
            == CommandScope::CommandFailure,
        app.state.confirmation is None && app.state.command_error is None
            && app.state.help_overlay is Some ==> app.active_scope() == CommandScope::HelpOverlay,
{
}

proof fn lemma_activating_keeps_quit(app: AppModel, index: usize)
    ensures
        app.activated(index).0.quit_requested == app.quit_requested,
        app.refreshed().0.quit_requested == app.quit_requested,
{
    reveal(AppModel::activated);
    reveal(AppModel::active_left);
    reveal(AppModel::refreshed);
    reveal(AppModel::refresh_started);
}

proof fn lemma_moving_keeps_quit(app: AppModel, delta: int)
    ensures
        app.provider_moved(delta).0.quit_requested == app.quit_requested,
        app.selected_by_focus(delta).0.quit_requested == app.quit_requested,
{
    reveal(AppModel::provider_moved);
    reveal(AppModel::selected_by_focus);
    reveal(AppModel::selection_moved);
    assert forall|index: usize| #[trigger]
        app.activated(index).0.quit_requested == app.quit_requested by {
        lemma_activating_keeps_quit(app, index);
    }
}

/// Nothing but Quit leaves the application, and Quit always does.
pub proof fn law_only_quit_leaves(app: AppModel, command: Command)
    ensures
        app.invoked(command).0.quit_requested == (app.quit_requested || command == Command::Quit),
{
    reveal(AppModel::dispatched);
    reveal(AppModel::details_synced);
    reveal(AppModel::bar_updated);
    let left = app.selection_left(command);
    assert(left.quit_requested == app.quit_requested) by {
        reveal(AppModel::selection_left);
    }
    match command {
        Command::Refresh => {
            lemma_activating_keeps_quit(left, 0);
        },
        Command::SelectNext | Command::NextWorkspace => {
            lemma_moving_keeps_quit(left, 1);
        },
        Command::SelectPrevious | Command::PreviousWorkspace => {
            lemma_moving_keeps_quit(left, -1);
        },
        Command::Confirm => {
            reveal(AppModel::confirmed);
            reveal(AppModel::command_dispatched);
        },
        Command::Resource(_) => {
            reveal(AppModel::resource_command);
            reveal(AppModel::command_dispatched);
        },
        Command::ActivateProviderWorkspace(index) => {
            lemma_activating_keeps_quit(left.with_focused_pane(FocusedPane::Providers), index);
        },
        _ => {
            lemma_carried_out_takes_none(left, command);
        },
    }
}

/// The bar at the bottom of the screen is compact.
pub proof fn law_the_bar_is_compact(
    registry: Seq<CommandModel>,
    scope: CommandScope,
    resource: Option<ResourceModel>,
)
    ensures
        command_bar_of(registry, scope, resource).len() <= COMMAND_BAR_ENTRIES,
{
}

} // verus!
