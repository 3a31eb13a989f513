//! What holds of whole events and Commands, one after another.

use vstd::prelude::*;

use super::laws::lemma_nothing_pending_elsewhere;
use super::model::{
    has_live_session, pending_ids, pending_providers, AppModel, EventModel, Outcome,
};
use super::state::{FocusedPane, InvocationModel, RunningModel, StateModel};
use crate::application::command::{Command, ResourceCommand};
use crate::application::pane_boundary::{usable, BoundaryModel};
use crate::application::provider::{PanelModel, ProviderRequestId, RequestModel, ResourceModel};
use crate::application::shell::{ResourceShellPresentation, SessionModel};
use crate::application::workspace::model::WorkspaceModel;
use crate::domain::{ProviderModel, TargetModel};
use crate::text::lemma_first_position;

verus! {

/// Whether a list of requests asks for a Resource Command.
pub open spec fn asks_for_commands(requests: Seq<RequestModel>) -> bool {
    exists|i: int| 0 <= i < requests.len() && #[trigger] requests[i] is ExecuteResourceCommand
}

/// Whether a list of requests asks for a refresh.
pub open spec fn asks_for_refreshes(requests: Seq<RequestModel>) -> bool {
    exists|i: int| 0 <= i < requests.len() && #[trigger] requests[i] is RefreshWorkspace
}

impl AppModel {
    /// The application after something that changed nothing: the details and
    /// the bar follow all the same.
    pub open spec fn left_alone(self) -> Outcome {
        AppModel::followed_up((self, Seq::empty()))
    }

    /// Whether two applications differ in their Workspaces at most, and in
    /// those only in the details they hold.
    #[verifier::opaque]
    pub open spec fn same_but_details(self, before: AppModel) -> bool {
        &&& self == before.with_state(
            StateModel { providers: self.state.providers, ..before.state },
        )
        &&& self.state.providers.len() == before.state.providers.len()
        &&& forall|i: int|
            0 <= i < before.state.providers.len() ==> #[trigger] self.state.providers[i] == (
            WorkspaceModel { details: self.state.providers[i].details, ..before.state.providers[i] })
    }
}

/// Whether two applications agree in what no Workspace holds.
spec fn agree(after: AppModel, before: AppModel) -> bool {
    &&& after.state.running_commands == before.state.running_commands
    &&& after.state.confirmation == before.state.confirmation
    &&& after.state.resource_shell_sessions == before.state.resource_shell_sessions
    &&& after.state.resource_shell_presentation == before.state.resource_shell_presentation
    &&& after.state.pane_boundary == before.state.pane_boundary
    &&& after.state.active_provider == before.state.active_provider
    &&& after.pending_refreshes == before.pending_refreshes
    &&& after.boundary_before_drag == before.boundary_before_drag
    &&& after.pending_boundary_save == before.pending_boundary_save
    &&& after.next_session_id == before.next_session_id
    &&& after.pending_effects == before.pending_effects
}

/// What following up touches.
proof fn lemma_follow_up_details(outcome: Outcome)
    ensures
        ({
            let after = AppModel::followed_up(outcome).0;
            (AppModel {
                next_request_id: outcome.0.next_request_id,
                state: StateModel { command_bar: outcome.0.state.command_bar, ..after.state },
                ..after
            }).same_but_details(outcome.0)
        }),
{
    reveal(AppModel::same_but_details);
    reveal(AppModel::details_synced);
    reveal(AppModel::bar_updated);
    let app = outcome.0;
    let synced = app.details_synced().0;
    let after = AppModel::followed_up(outcome).0;
    assert(after.state.providers == synced.state.providers);
    if let Some(workspace) = app.active_workspace() {
        let shown = workspace.with_visible_details(ProviderRequestId(app.next_request_id));
        assert(synced.state.providers == app.state.providers.update(
            app.state.active_provider->0 as int,
            shown,
        ));
        assert(shown == (WorkspaceModel { details: shown.details, ..workspace }));
    }
}

/// What following up leaves alone, and what it asks for.
proof fn lemma_follow_up(outcome: Outcome)
    ensures
        agree(AppModel::followed_up(outcome).0, outcome.0),
        ({
            let requests = AppModel::followed_up(outcome).1;
            &&& requests.len() >= outcome.1.len()
            &&& requests.take(outcome.1.len() as int) == outcome.1
            &&& forall|i: int|
                outcome.1.len() <= i < requests.len() ==> #[trigger] requests[i]
                    is LoadResourceDetails
        }),
{
    reveal(AppModel::details_synced);
    reveal(AppModel::bar_updated);
    let loads = outcome.0.details_synced().1;
    let requests = AppModel::followed_up(outcome).1;
    assert(requests.take(outcome.1.len() as int) =~= outcome.1);
    assert forall|i: int| outcome.1.len() <= i < requests.len() implies #[trigger] requests[i]
        is LoadResourceDetails by {
        assert(requests[i] == loads[i - outcome.1.len()]);
    }
}

proof fn lemma_selection_left(app: AppModel, command: Command)
    ensures
        app.selection_left(command).same_but_details(app),
        agree(app.selection_left(command), app),
        app.selection_left(command).next_request_id == app.next_request_id,
        app.selection_left(command).state.providers.len() == app.state.providers.len(),
{
    reveal(AppModel::same_but_details);
    reveal(AppModel::selection_left);
    if let Some(workspace) = app.active_workspace() {
        let quiet = workspace.without_selection();
        assert(quiet == (WorkspaceModel { details: quiet.details, ..workspace }));
    }
}

proof fn lemma_same_active(app: AppModel, before: AppModel)
    requires
        app.same_but_details(before),
    ensures
        app.active_workspace() is Some <==> before.active_workspace() is Some,
        app.active_workspace() matches Some(workspace) ==> workspace == (WorkspaceModel {
            details: workspace.details,
            ..before.active_workspace()->0
        }),
{
    reveal(AppModel::same_but_details);
    if let Some(workspace) = app.active_workspace() {
        let i = app.state.active_provider->0 as int;
        assert(app.state.providers[i] == (WorkspaceModel {
            details: app.state.providers[i].details,
            ..before.state.providers[i]
        }));
    }
}

/// Details play no part in which Resource is selected.
proof fn lemma_same_choice(workspace: WorkspaceModel, before: WorkspaceModel)
    requires
        workspace == (WorkspaceModel { details: workspace.details, ..before }),
    ensures
        workspace.provider == before.provider,
        workspace.selected_target() == before.selected_target(),
        workspace.selected_resource() == before.selected_resource(),
        workspace.shows_shell() == before.shows_shell(),
{
}

proof fn lemma_same_selection(app: AppModel, before: AppModel)
    requires
        app.same_but_details(before),
    ensures
        app.active_workspace() is Some <==> before.active_workspace() is Some,
        app.active_workspace() matches Some(workspace) ==> {
            let active = before.active_workspace()->0;
            &&& workspace.provider == active.provider
            &&& workspace.selected_target() == active.selected_target()
            &&& workspace.selected_resource() == active.selected_resource()
        },
{
    lemma_same_active(app, before);
    if let Some(workspace) = app.active_workspace() {
        lemma_same_choice(workspace, before.active_workspace()->0);
    }
}

/// Whether the Active Workspace is a Provider's and has a Resource selected.
#[verifier::opaque]
spec fn selects(
    app: AppModel,
    provider: ProviderModel,
    target: TargetModel,
    resource: ResourceModel,
) -> bool {
    app.active_workspace() matches Some(workspace) && workspace.provider == provider
        && workspace.selected_target() == Some(target) && workspace.selected_resource() == Some(
        resource,
    )
}

proof fn lemma_still_selects(
    app: AppModel,
    command: Command,
    provider: ProviderModel,
    target: TargetModel,
    resource: ResourceModel,
)
    requires
        selects(app, provider, target, resource),
    ensures
        selects(app.selection_left(command), provider, target, resource),
{
    reveal(selects);
    lemma_selection_left(app, command);
    lemma_same_selection(app.selection_left(command), app);
}

/// Whether the selected Resource has a live session.
#[verifier::opaque]
spec fn has_session(app: AppModel) -> bool {
    app.active_workspace() matches Some(workspace) && workspace.selected_target() matches Some(
        target,
    ) && has_live_session(app.state.resource_shell_sessions, workspace.provider.id, target)
}

proof fn lemma_still_has_session(app: AppModel, command: Command)
    requires
        has_session(app),
    ensures
        has_session(app.selection_left(command)),
{
    reveal(has_session);
    lemma_selection_left(app, command);
    lemma_same_selection(app.selection_left(command), app);
}

/// The session on the screen.
#[verifier::opaque]
spec fn on_screen(app: AppModel) -> Option<SessionModel> {
    app.state.visible_session()
}

proof fn lemma_same_sessions(app: AppModel, before: AppModel)
    requires
        app.same_but_details(before),
    ensures
        on_screen(app) == on_screen(before),
{
    reveal(on_screen);
    lemma_same_active(app, before);
    reveal(AppModel::same_but_details);
    assert(app.state.resource_shell_sessions == before.state.resource_shell_sessions);
    if let Some(workspace) = app.active_workspace() {
        lemma_same_choice(workspace, before.active_workspace()->0);
    }
}

proof fn lemma_asks_only_in_front(outcome: Outcome)
    ensures
        ({
            let requests = AppModel::followed_up(outcome).1;
            &&& asks_for_commands(requests) <==> asks_for_commands(outcome.1)
            &&& asks_for_refreshes(requests) <==> asks_for_refreshes(outcome.1)
        }),
{
    lemma_follow_up(outcome);
    let requests = AppModel::followed_up(outcome).1;
    assert forall|i: int| 0 <= i < outcome.1.len() implies #[trigger] outcome.1[i]
        == requests[i] by {
        assert(requests.take(outcome.1.len() as int)[i] == requests[i]);
    }
    if asks_for_commands(requests) {
        let i = choose|i: int|
            0 <= i < requests.len() && #[trigger] requests[i] is ExecuteResourceCommand;
        assert(outcome.1[i] == requests[i]);
    }
    if asks_for_refreshes(requests) {
        let i = choose|i: int|
            0 <= i < requests.len() && #[trigger] requests[i] is RefreshWorkspace;
        assert(outcome.1[i] == requests[i]);
    }
    if asks_for_commands(outcome.1) {
        let i = choose|i: int|
            0 <= i < outcome.1.len() && #[trigger] outcome.1[i] is ExecuteResourceCommand;
        assert(requests[i] is ExecuteResourceCommand);
    }
    if asks_for_refreshes(outcome.1) {
        let i = choose|i: int|
            0 <= i < outcome.1.len() && #[trigger] outcome.1[i] is RefreshWorkspace;
        assert(requests[i] is RefreshWorkspace);
    }
}

proof fn lemma_delete_handled(
    app: AppModel,
    provider: ProviderModel,
    target: TargetModel,
    resource: ResourceModel,
)
    requires
        selects(app, provider, target, resource),
        resource.available_commands.contains(ResourceCommand::Delete),
    ensures
        ({
            let (asked, requests) = app.resource_command(ResourceCommand::Delete);
            &&& requests.len() == 0
            &&& asked.state.running_commands == app.state.running_commands
            &&& asked.state.confirmation == Some(
                InvocationModel {
                    provider_id: provider.id,
                    provider_name: provider.name,
                    target,
                    resource_name: resource.name,
                    command: ResourceCommand::Delete,
                    state: resource.state,
                },
            )
        }),
{
    reveal(selects);
    reveal(AppModel::resource_command);
    reveal(AppModel::invocation);
}

proof fn lemma_delete_dispatched(
    app: AppModel,
    provider: ProviderModel,
    target: TargetModel,
    resource: ResourceModel,
)
    requires
        selects(app, provider, target, resource),
        resource.available_commands.contains(ResourceCommand::Delete),
    ensures
        ({
            let (asked, requests) = app.dispatched(
                Command::Resource(ResourceCommand::Delete),
            );
            &&& requests.len() == 0
            &&& asked.state.running_commands == app.state.running_commands
            &&& asked.state.confirmation == Some(
                InvocationModel {
                    provider_id: provider.id,
                    provider_name: provider.name,
                    target,
                    resource_name: resource.name,
                    command: ResourceCommand::Delete,
                    state: resource.state,
                },
            )
        }),
{
    let command = Command::Resource(ResourceCommand::Delete);
    let left = app.selection_left(command);
    lemma_selection_left(app, command);
    lemma_still_selects(app, command, provider, target, resource);
    lemma_delete_handled(left, provider, target, resource);
    reveal(AppModel::dispatched);
}

/// Invoking Delete on a Resource that offers it sends nothing and asks for the
/// confirmation of exactly that deletion.
proof fn lemma_delete_asks(
    app: AppModel,
    workspace: WorkspaceModel,
    target: TargetModel,
    resource: ResourceModel,
)
    requires
        app.active_workspace() == Some(workspace),
        workspace.selected_target() == Some(target),
        workspace.selected_resource() == Some(resource),
        resource.available_commands.contains(ResourceCommand::Delete),
    ensures
        ({
            let (asked, requests) = app.invoked(Command::Resource(ResourceCommand::Delete));
            &&& !asks_for_commands(requests)
            &&& asked.state.running_commands == app.state.running_commands
            &&& asked.state.confirmation == Some(
                InvocationModel {
                    provider_id: workspace.provider.id,
                    provider_name: workspace.provider.name,
                    target,
                    resource_name: resource.name,
                    command: ResourceCommand::Delete,
                    state: resource.state,
                },
            )
        }),
{
    let outcome = app.dispatched(Command::Resource(ResourceCommand::Delete));
    reveal(selects);
    lemma_delete_dispatched(app, workspace.provider, target, resource);
    lemma_follow_up(outcome);
    lemma_asks_only_in_front(outcome);
}

/// Confirming sends exactly what was asked about.
proof fn lemma_confirming_sends(app: AppModel, invocation: InvocationModel)
    requires
        app.state.confirmation == Some(invocation),
    ensures
        ({
            let (confirmed, requests) = app.invoked(Command::Confirm);
            &&& confirmed.state.confirmation is None
            &&& requests.len() > 0
            &&& requests[0] == (RequestModel::ExecuteResourceCommand {
                request_id: ProviderRequestId(app.next_request_id),
                provider_id: invocation.provider_id,
                target: invocation.target,
                command: invocation.command,
                state: invocation.state,
            })
            &&& forall|i: int|
                0 < i < requests.len() ==> !(#[trigger] requests[i] is ExecuteResourceCommand)
            &&& confirmed.state.running_commands == app.state.running_commands.push(
                RunningModel {
                    request_id: ProviderRequestId(app.next_request_id),
                    provider_id: invocation.provider_id,
                    provider_name: invocation.provider_name,
                    target: invocation.target,
                    resource_name: invocation.resource_name,
                    command: invocation.command,
                },
            )
        }),
{
    let left = app.selection_left(Command::Confirm);
    lemma_selection_left(app, Command::Confirm);
    reveal(AppModel::dispatched);
    reveal(AppModel::confirmed);
    reveal(AppModel::command_dispatched);
    let outcome = app.dispatched(Command::Confirm);
    lemma_follow_up(outcome);
    let requests = AppModel::followed_up(outcome).1;
    assert(outcome.1.len() == 1);
    assert(requests.take(1)[0] == requests[0]);
}

/// Cancelling sends nothing and forgets what was asked.
proof fn lemma_cancelling_forgets(app: AppModel)
    requires
        app.state.confirmation is Some,
    ensures
        ({
            let (cancelled, requests) = app.invoked(Command::Cancel);
            &&& cancelled.state.confirmation is None
            &&& cancelled.state.running_commands == app.state.running_commands
            &&& !asks_for_commands(requests)
        }),
{
    lemma_selection_left(app, Command::Cancel);
    reveal(AppModel::dispatched);
    reveal(AppModel::carried_out);
    reveal(AppModel::cancelled);
    lemma_follow_up(app.dispatched(Command::Cancel));
    lemma_asks_only_in_front(app.dispatched(Command::Cancel));
}

/// Deleting asks first: nothing is sent before the confirmation, exactly the
/// confirmed deletion is sent with it, and cancelling sends nothing.
pub proof fn law_deleting_asks_first(
    app: AppModel,
    workspace: WorkspaceModel,
    target: TargetModel,
    resource: ResourceModel,
)
    requires
        app.active_workspace() == Some(workspace),
        workspace.selected_target() == Some(target),
        workspace.selected_resource() == Some(resource),
        resource.available_commands.contains(ResourceCommand::Delete),
    ensures
        ({
            let (asked, requests) = app.invoked(Command::Resource(ResourceCommand::Delete));
            &&& !asks_for_commands(requests)
            &&& asked.state.running_commands == app.state.running_commands
            &&& asked.state.confirmation == Some(
                InvocationModel {
                    provider_id: workspace.provider.id,
                    provider_name: workspace.provider.name,
                    target,
                    resource_name: resource.name,
                    command: ResourceCommand::Delete,
                    state: resource.state,
                },
            )
        }),
        ({
            let asked = app.invoked(Command::Resource(ResourceCommand::Delete)).0;
            let (confirmed, requests) = asked.invoked(Command::Confirm);
            &&& confirmed.state.confirmation is None
            &&& requests.len() > 0
            &&& requests[0] == (RequestModel::ExecuteResourceCommand {
                request_id: ProviderRequestId(asked.next_request_id),
                provider_id: workspace.provider.id,
                target,
                command: ResourceCommand::Delete,
                state: resource.state,
            })
            &&& forall|i: int|
                0 < i < requests.len() ==> !(#[trigger] requests[i] is ExecuteResourceCommand)
        }),
        ({
            let asked = app.invoked(Command::Resource(ResourceCommand::Delete)).0;
            let (cancelled, requests) = asked.invoked(Command::Cancel);
            &&& cancelled.state.confirmation is None
            &&& cancelled.state.running_commands == app.state.running_commands
            &&& !asks_for_commands(requests)
        }),
{
    lemma_delete_asks(app, workspace, target, resource);
    let asked = app.invoked(Command::Resource(ResourceCommand::Delete)).0;
    lemma_confirming_sends(asked, asked.state.confirmation->0);
    lemma_cancelling_forgets(asked);
}

/// A Command that the selected Resource does not offer sends nothing and asks
/// nothing.
pub proof fn law_unavailable_commands_do_nothing(app: AppModel, command: ResourceCommand)
    requires
        app.selected_resource() matches Some(resource) ==> !resource.available_commands.contains(
            command,
        ),
    ensures
        ({
            let (after, requests) = app.invoked(Command::Resource(command));
            &&& !asks_for_commands(requests)
            &&& after.state.running_commands == app.state.running_commands
            &&& after.state.confirmation == app.state.confirmation
        }),
{
    let invoked = Command::Resource(command);
    let left = app.selection_left(invoked);
    lemma_selection_left(app, invoked);
    lemma_same_selection(left, app);
    reveal(AppModel::dispatched);
    reveal(AppModel::resource_command);
    reveal(AppModel::invocation);
    lemma_follow_up(app.dispatched(invoked));
    lemma_asks_only_in_front(app.dispatched(invoked));
}

/// A refresh result whose request is not pending changes nothing.
pub proof fn law_stale_refreshes_change_nothing(
    app: AppModel,
    request_id: ProviderRequestId,
    provider_id: Seq<char>,
    result: Result<Seq<PanelModel>, Seq<char>>,
)
    requires
        !pending_ids(app.pending_refreshes).contains(request_id),
    ensures
        app.updated(EventModel::RefreshCompleted { request_id, provider_id, result })
            == app.left_alone(),
{
    reveal(AppModel::applied);
    reveal(AppModel::refresh_completed);
    lemma_first_position(pending_ids(app.pending_refreshes), request_id);
}

/// Leaving a Provider Workspace makes every refresh asked for until then
/// unwelcome.
pub proof fn law_a_left_workspace_refuses_its_refreshes(
    app: AppModel,
    index: usize,
    request_id: ProviderRequestId,
    provider_id: Seq<char>,
    result: Result<Seq<PanelModel>, Seq<char>>,
)
    requires
        app.well_formed(),
        app.can_allocate(),
        index < app.state.providers.len(),
        app.state.active_provider != Some(index),
        request_id.0 < app.next_request_id,
    ensures
        ({
            let elsewhere = app.invoked(Command::ActivateProviderWorkspace(index)).0;
            elsewhere.updated(EventModel::RefreshCompleted { request_id, provider_id, result })
                == elsewhere.left_alone()
        }),
{
    let command = Command::ActivateProviderWorkspace(index);
    let outcome = app.dispatched(command);
    lemma_leaving_forgets_refreshes(app, index);
    lemma_follow_up(outcome);
    let elsewhere = AppModel::followed_up(outcome).0;
    let pending = elsewhere.pending_refreshes;
    let ids = pending_ids(pending);
    assert forall|i: int| 0 <= i < ids.len() implies ids[i] != request_id by {
        assert(outcome.0.pending_refreshes[i].0 == ProviderRequestId(app.next_request_id));
        assert(ids[i] == pending[i].0);
    }
    assert(!ids.contains(request_id));
    law_stale_refreshes_change_nothing(elsewhere, request_id, provider_id, result);
}

proof fn lemma_leaving_forgets_refreshes(app: AppModel, index: usize)
    requires
        app.well_formed(),
        index < app.state.providers.len(),
        app.state.active_provider != Some(index),
    ensures
        ({
            let after = app.dispatched(Command::ActivateProviderWorkspace(index)).0;
            forall|i: int|
                0 <= i < after.pending_refreshes.len() ==> (
                #[trigger] after.pending_refreshes[i]).0 == ProviderRequestId(app.next_request_id)
        }),
{
    let command = Command::ActivateProviderWorkspace(index);
    let left = app.selection_left(command);
    lemma_selection_left(app, command);
    lemma_pending_still_fits(app, command);
    let focused = left.with_focused_pane(FocusedPane::Providers);
    assert(focused.pending_fits() && focused.active_workspace() is Some) by {
        assert(focused.active_workspace() == left.active_workspace());
    }
    lemma_activating_forgets_refreshes(focused, index);
    reveal(AppModel::dispatched);
}

proof fn lemma_pending_still_fits(app: AppModel, command: Command)
    requires
        app.pending_fits(),
        app.active_workspace() is Some,
    ensures
        app.selection_left(command).pending_fits(),
        app.selection_left(command).active_workspace() is Some,
{
    lemma_selection_left(app, command);
    lemma_same_selection(app.selection_left(command), app);
}

proof fn lemma_activating_forgets_refreshes(app: AppModel, index: usize)
    requires
        app.pending_fits(),
        app.state.active_provider != Some(index),
        app.active_workspace() is Some,
    ensures
        forall|i: int|
            0 <= i < app.activated(index).0.pending_refreshes.len() ==> (
            #[trigger] app.activated(index).0.pending_refreshes[i]).0 == ProviderRequestId(
                app.next_request_id,
            ),
{
    lemma_nothing_pending_elsewhere(app, app.active_workspace()->0.provider.id);
    reveal(AppModel::activated);
    reveal(AppModel::active_left);
    reveal(AppModel::refreshed);
    reveal(AppModel::refresh_started);
    assert(app.active_left().pending_refreshes.len() == 0);
}

/// While a refresh of the Active Workspace is pending, no second one is asked
/// for, neither by the clock nor by the user.
pub proof fn law_one_refresh_at_a_time(app: AppModel)
    requires
        app.active_workspace() matches Some(workspace) && pending_providers(
            app.pending_refreshes,
        ).contains(workspace.provider.id),
    ensures
        !asks_for_refreshes(app.updated(EventModel::RefreshTimerElapsed).1),
        !asks_for_refreshes(app.invoked(Command::Refresh).1),
{
    reveal(AppModel::applied);
    reveal(AppModel::dispatched);
    reveal(AppModel::refreshed);
    lemma_selection_left(app, Command::Refresh);
    lemma_same_selection(app.selection_left(Command::Refresh), app);
    lemma_asks_only_in_front(app.applied(EventModel::RefreshTimerElapsed));
    lemma_asks_only_in_front(app.dispatched(Command::Refresh));
}

proof fn lemma_boundary_step(app: AppModel, command: Command)
    requires
        command is GrabPaneBoundary || command is SetPaneBoundary || command
            is ReleasePaneBoundary,
    ensures
        ({
            let after = app.invoked(command).0;
            let carried = app.carried_out(command);
            &&& after.state.pane_boundary == carried.state.pane_boundary
            &&& after.boundary_before_drag == carried.boundary_before_drag
            &&& after.pending_boundary_save == carried.pending_boundary_save
        }),
{
    lemma_selection_left(app, command);
    reveal(AppModel::dispatched);
    reveal(AppModel::carried_out);
    reveal(AppModel::boundary_released);
    lemma_follow_up(app.dispatched(command));
}

/// A drag reaches durable state once, when the user lets go, and only if it
/// changed the share.
pub proof fn law_a_drag_is_saved_once(app: AppModel, column: u16, share: u16)
    ensures
        ({
            let held = app.invoked(Command::GrabPaneBoundary(column)).0;
            let dragged = held.invoked(Command::SetPaneBoundary(share)).0;
            let released = dragged.invoked(Command::ReleasePaneBoundary).0;
            &&& held.pending_boundary_save == app.pending_boundary_save
            &&& dragged.pending_boundary_save == app.pending_boundary_save
            &&& released.state.pane_boundary == (BoundaryModel {
                percent: usable(share as int),
                grab: None,
            })
            &&& released.pending_boundary_save == (if usable(share as int)
                != app.state.pane_boundary.percent {
                Some(released.state.pane_boundary)
            } else {
                app.pending_boundary_save
            })
        }),
{
    let held = app.invoked(Command::GrabPaneBoundary(column)).0;
    let dragged = held.invoked(Command::SetPaneBoundary(share)).0;
    lemma_boundary_step(app, Command::GrabPaneBoundary(column));
    lemma_boundary_step(held, Command::SetPaneBoundary(share));
    lemma_boundary_step(dragged, Command::ReleasePaneBoundary);
    reveal(AppModel::carried_out);
    reveal(AppModel::boundary_released);
}

/// Navigating to another Provider Workspace never discards a running Command
/// or a session.
pub proof fn law_navigating_keeps_running_commands(app: AppModel, command: Command)
    requires
        command is ActivateProviderWorkspace || command is NextWorkspace || command
            is PreviousWorkspace,
    ensures
        app.invoked(command).0.state.running_commands == app.state.running_commands,
        app.invoked(command).0.state.resource_shell_sessions == app.state.resource_shell_sessions,
{
    lemma_selection_left(app, command);
    reveal(AppModel::dispatched);
    reveal(AppModel::provider_moved);
    reveal(AppModel::activated);
    reveal(AppModel::active_left);
    reveal(AppModel::refreshed);
    reveal(AppModel::refresh_started);
    lemma_follow_up(app.dispatched(command));
}

/// A Resource with a live session is not given a second one, however its shell
/// is asked for.
pub proof fn law_a_live_session_is_not_started_again(app: AppModel)
    requires
        app.active_workspace() matches Some(workspace) && workspace.selected_target() matches Some(
            target,
        ) && has_live_session(
            app.state.resource_shell_sessions,
            workspace.provider.id,
            target,
        ),
    ensures
        app.invoked(Command::StartResourceShell).0.pending_effects == app.pending_effects,
        app.invoked(Command::StartResourceShell).0.state.resource_shell_sessions
            == app.state.resource_shell_sessions,
        app.invoked(Command::OpenShell).0.pending_effects == app.pending_effects,
        app.invoked(Command::OpenShell).0.state.resource_shell_sessions
            == app.state.resource_shell_sessions,
{
    reveal(has_session);
    lemma_not_started_again(app, Command::StartResourceShell);
    lemma_not_started_again(app, Command::OpenShell);
}

proof fn lemma_not_started_again(app: AppModel, command: Command)
    requires
        command == Command::StartResourceShell || command == Command::OpenShell,
        has_session(app),
    ensures
        app.invoked(command).0.pending_effects == app.pending_effects,
        app.invoked(command).0.state.resource_shell_sessions == app.state.resource_shell_sessions,
{
    let left = app.selection_left(command);
    lemma_selection_left(app, command);
    lemma_still_has_session(app, command);
    lemma_no_second_session(left);
    lemma_no_second_session_opened(left);
    let outcome = app.dispatched(command);
    assert(agree_on_sessions(outcome.0, left)) by {
        reveal(AppModel::dispatched);
        reveal(AppModel::carried_out);
    }
    lemma_follow_up(outcome);
}

spec fn agree_on_sessions(after: AppModel, before: AppModel) -> bool {
    &&& after.pending_effects == before.pending_effects
    &&& after.state.resource_shell_sessions == before.state.resource_shell_sessions
}

proof fn lemma_no_second_session(app: AppModel)
    requires
        has_session(app),
    ensures
        agree_on_sessions(app.shell_started(), app),
{
    reveal(has_session);
    reveal(AppModel::shell_started);
    reveal(AppModel::startable_session);
}

proof fn lemma_no_second_session_opened(app: AppModel)
    requires
        has_session(app),
    ensures
        agree_on_sessions(app.shell_opened(), app),
{
    reveal(has_session);
    reveal(AppModel::shell_opened);
    let workspace = app.active_workspace()->0;
    if workspace.offers_shell() {
        let shown = workspace.with_shell_tab();
        lemma_shell_tab_keeps_selection(workspace);
        let opened = app.with_active(shown);
        let enlarged = opened.with_state(
            StateModel {
                focused_pane: FocusedPane::Details,
                resource_shell_presentation: ResourceShellPresentation::Enlarged,
                ..opened.state
            },
        );
        assert(opened.active_workspace() == Some(shown));
        assert(enlarged.active_workspace() == Some(shown));
        lemma_no_second_session(enlarged);
    }
}

proof fn lemma_shell_tab_keeps_selection(workspace: WorkspaceModel)
    ensures
        workspace.with_shell_tab().selected_target() == workspace.selected_target(),
        workspace.with_shell_tab().provider == workspace.provider,
{
}

/// Changing the size of a visible session twice restores it, and touches no
/// session; from an enlarged one the Details presentation comes back.
pub proof fn law_toggling_twice_restores_the_size(app: AppModel)
    ensures
        ({
            let once = app.invoked(Command::ToggleResourceShellSize).0;
            let twice = once.invoked(Command::ToggleResourceShellSize).0;
            &&& twice.state.resource_shell_presentation == app.state.resource_shell_presentation
            &&& once.state.resource_shell_sessions == app.state.resource_shell_sessions
            &&& app.state.enlarged_session() is Some ==> once.state.enlarged_session() is None
        }),
{
    reveal(on_screen);
    lemma_size_toggled(app);
    lemma_size_toggled(app.invoked(Command::ToggleResourceShellSize).0);
}

/// Whether the size was changed, where a session is on the screen to change it
/// of.
spec fn resized(after: AppModel, before: AppModel) -> bool {
    &&& after.state.resource_shell_sessions == before.state.resource_shell_sessions
    &&& on_screen(after) == on_screen(before)
    &&& (after.state.resource_shell_presentation == before.state.resource_shell_presentation)
        == (on_screen(before) is None)
}

proof fn lemma_size_toggled(app: AppModel)
    ensures
        resized(app.invoked(Command::ToggleResourceShellSize).0, app),
{
    let command = Command::ToggleResourceShellSize;
    let left = app.selection_left(command);
    lemma_selection_left(app, command);
    lemma_same_sessions(left, app);
    lemma_size_handled(left);
    let outcome = app.dispatched(command);
    assert(resized(outcome.0, left)) by {
        reveal(AppModel::dispatched);
        reveal(AppModel::carried_out);
    }
    lemma_follow_up(outcome);
    lemma_followed_up_shows_the_same(outcome);
}

proof fn lemma_followed_up_shows_the_same(outcome: Outcome)
    ensures
        on_screen(AppModel::followed_up(outcome).0) == on_screen(outcome.0),
{
    lemma_follow_up_details(outcome);
    let after = AppModel::followed_up(outcome).0;
    let settled = AppModel {
        next_request_id: outcome.0.next_request_id,
        state: StateModel { command_bar: outcome.0.state.command_bar, ..after.state },
        ..after
    };
    lemma_same_sessions(settled, outcome.0);
    reveal(on_screen);
    assert(after.state.active_workspace() == settled.state.active_workspace());
}

proof fn lemma_size_handled(app: AppModel)
    ensures
        resized(app.shell_size_toggled(), app),
{
    reveal(on_screen);
    reveal(AppModel::shell_size_toggled);
    assert(app.shell_size_toggled().state.active_workspace() == app.state.active_workspace());
}

} // verus!
