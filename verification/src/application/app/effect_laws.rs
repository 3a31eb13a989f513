//! What Commands and events ask for, report and keep.

use vstd::prelude::*;

use super::command_laws::{
    lemma_followed, lemma_left, lemma_stands, same_choices, same_elsewhere, same_surroundings,
    stands_at, unselected,
};
use super::model::{
    pending_ids, pending_providers, provider_ids, running_keys, AppModel, EventModel, Outcome,
};
use super::state::{InvocationModel, RunningModel, StateModel};
use crate::application::command::{Command, ResourceCommand};
use crate::application::pane_boundary::BoundaryModel;
use crate::application::provider::{PanelModel, ProviderRequestId, RequestModel};
use crate::application::workspace::model::{LoadModel, TabModel, WorkspaceModel};
use crate::domain::{ProviderModel, TargetModel};
use crate::text::{decimal, lemma_first_position_found};

verus! {

/// What following up leaves alone, whether or not a Workspace is active.
pub(super) proof fn lemma_surroundings(outcome: Outcome)
    ensures
        ({
            let (after, requests) = AppModel::followed_up(outcome);
            &&& same_surroundings(after, outcome.0)
            &&& requests.len() >= outcome.1.len()
            &&& forall|i: int| 0 <= i < outcome.1.len() ==> #[trigger] requests[i] == outcome.1[i]
            &&& forall|i: int|
                0 <= i < outcome.0.state.providers.len() ==> same_choices(
                    #[trigger] after.state.providers[i],
                    outcome.0.state.providers[i],
                )
        }),
{
    reveal(AppModel::details_synced);
    reveal(AppModel::bar_updated);
    if let Some(workspace) = outcome.0.active_workspace() {
        lemma_followed(outcome, workspace);
        let after = AppModel::followed_up(outcome).0;
        assert forall|i: int| 0 <= i < outcome.0.state.providers.len() implies same_choices(
            #[trigger] after.state.providers[i],
            outcome.0.state.providers[i],
        ) by {
            if outcome.0.state.active_provider == Some(i as usize) {
                assert(i as usize == i || outcome.0.state.active_provider->0 != i);
            }
        }
    }
}

/// What giving up the Details selection leaves alone.
pub(super) proof fn lemma_left_alone(app: AppModel, command: Command)
    ensures
        ({
            let left = app.selection_left(command);
            &&& left.state == (StateModel { providers: left.state.providers, ..app.state })
            &&& left == (AppModel { state: left.state, ..app })
            &&& same_elsewhere(left, app)
        }),
{
    reveal(AppModel::selection_left);
    if let Some(workspace) = app.active_workspace() {
        lemma_left(app, workspace, command);
    }
}

/// Whether the Active Workspace has a Resource of its focused panel selected.
pub open spec fn works_on(
    app: AppModel,
    workspace: WorkspaceModel,
    panels: Seq<PanelModel>,
    p: int,
    s: int,
) -> bool {
    &&& app.active_workspace() == Some(workspace)
    &&& stands_at(workspace, panels, p, s)
    &&& workspace.focused_resource_panel == Some(panels[p].id)
}

/// The identity of a Resource.
pub open spec fn resource_of(panels: Seq<PanelModel>, p: int, s: int) -> TargetModel {
    TargetModel { panel_id: panels[p].id, resource_id: panels[p].resources[s].id }
}

pub(super) proof fn lemma_works_on(
    app: AppModel,
    workspace: WorkspaceModel,
    panels: Seq<PanelModel>,
    p: int,
    s: int,
)
    requires
        works_on(app, workspace, panels, p, s),
    ensures
        workspace.selected_target() == Some(resource_of(panels, p, s)),
        workspace.selected_resource() == Some(panels[p].resources[s]),
{
    lemma_stands(workspace, panels, p, s);
}

/// The request for an operation on a Resource.
pub open spec fn operation_request(
    app: AppModel,
    invocation: InvocationModel,
) -> RequestModel {
    RequestModel::ExecuteResourceCommand {
        request_id: ProviderRequestId(app.next_request_id),
        provider_id: invocation.provider_id,
        target: invocation.target,
        command: invocation.command,
        state: invocation.state,
    }
}

/// Whether an operation was sent to its Provider: it is asked for first, counts
/// as running, and no earlier failure is reported any more.
pub open spec fn is_sent(
    after: AppModel,
    requests: Seq<RequestModel>,
    before: AppModel,
    invocation: InvocationModel,
) -> bool {
    &&& requests.len() > 0
    &&& requests[0] == operation_request(before, invocation)
    &&& after.next_request_id > before.next_request_id
    &&& same_surroundings(
        after,
        AppModel {
            state: StateModel {
                command_error: None,
                confirmation: None,
                running_commands: before.state.running_commands.push(
                    RunningModel {
                        request_id: ProviderRequestId(before.next_request_id),
                        provider_id: invocation.provider_id,
                        provider_name: invocation.provider_name,
                        target: invocation.target,
                        resource_name: invocation.resource_name,
                        command: invocation.command,
                    },
                ),
                ..before.state
            },
            ..before
        },
    )
}

proof fn lemma_next_identity(outcome: Outcome)
    requires
        outcome.0.next_request_id < u64::MAX,
    ensures
        AppModel::followed_up(outcome).0.next_request_id >= outcome.0.next_request_id,
{
    reveal(AppModel::details_synced);
    reveal(AppModel::bar_updated);
}

/// An operation that the selected Resource offers is sent to its Provider, for
/// that Resource and with the state it was in.
pub proof fn law_an_operation_is_sent_for_the_selected_resource(
    app: AppModel,
    workspace: WorkspaceModel,
    panels: Seq<PanelModel>,
    p: int,
    s: int,
    operation: ResourceCommand,
)
    requires
        app.can_allocate(),
        works_on(app, workspace, panels, p, s),
        panels[p].resources[s].available_commands.contains(operation),
        operation != ResourceCommand::Delete,
        app.state.confirmation is None,
    ensures
        ({
            let (after, requests) = app.invoked(Command::Resource(operation));
            is_sent(
                after,
                requests,
                app,
                InvocationModel {
                    provider_id: workspace.provider.id,
                    provider_name: workspace.provider.name,
                    target: resource_of(panels, p, s),
                    resource_name: panels[p].resources[s].name,
                    command: operation,
                    state: panels[p].resources[s].state,
                },
            )
        }),
{
    let command = Command::Resource(operation);
    lemma_left(app, workspace, command);
    let left = app.selection_left(command);
    lemma_works_on(left, unselected(workspace, command), panels, p, s);
    reveal(AppModel::dispatched);
    reveal(AppModel::resource_command);
    reveal(AppModel::invocation);
    reveal(AppModel::command_dispatched);
    lemma_surroundings(app.dispatched(command));
    lemma_next_identity(app.dispatched(command));
}

/// Confirming sends exactly what was asked about.
pub proof fn law_confirming_sends_what_was_asked(app: AppModel, invocation: InvocationModel)
    requires
        app.can_allocate(),
        app.state.confirmation == Some(invocation),
    ensures
        ({
            let (after, requests) = app.invoked(Command::Confirm);
            is_sent(after, requests, app, invocation)
        }),
{
    let command = Command::Confirm;
    lemma_left_alone(app, command);
    reveal(AppModel::dispatched);
    reveal(AppModel::confirmed);
    reveal(AppModel::command_dispatched);
    lemma_surroundings(app.dispatched(command));
    lemma_next_identity(app.dispatched(command));
}

/// Cancelling leaves one modal, the topmost: a question, then a reported
/// failure, then help. Confirming a failure puts it away.
pub proof fn law_cancelling_leaves_the_topmost_modal(app: AppModel)
    ensures
        same_surroundings(
            app.invoked(Command::Cancel).0,
            AppModel {
                state: if app.state.confirmation is Some {
                    StateModel { confirmation: None, ..app.state }
                } else if app.state.command_error is Some {
                    StateModel { command_error: None, ..app.state }
                } else {
                    StateModel { help_overlay: None, ..app.state }
                },
                ..app
            },
        ),
        app.state.confirmation is None ==> same_surroundings(
            app.invoked(Command::Confirm).0,
            AppModel { state: StateModel { command_error: None, ..app.state }, ..app },
        ),
{
    reveal(AppModel::dispatched);
    reveal(AppModel::carried_out);
    reveal(AppModel::cancelled);
    reveal(AppModel::confirmed);
    lemma_left_alone(app, Command::Cancel);
    lemma_surroundings(app.dispatched(Command::Cancel));
    lemma_left_alone(app, Command::Confirm);
    lemma_surroundings(app.dispatched(Command::Confirm));
}

/// Moving the Pane Boundary changes the share of the Resource Panels by five
/// percent, between a quarter and three quarters, and a changed share is to be
/// saved.
pub proof fn law_the_boundary_moves_by_five(app: AppModel)
    requires
        25 <= app.state.pane_boundary.percent <= 75,
    ensures
        ({
            let boundary = app.state.pane_boundary;
            let narrow = BoundaryModel {
                percent: if boundary.percent < 30 {
                    25
                } else {
                    boundary.percent - 5
                },
                ..boundary
            };
            let wide = BoundaryModel {
                percent: if boundary.percent > 70 {
                    75
                } else {
                    boundary.percent + 5
                },
                ..boundary
            };
            &&& same_surroundings(
                app.invoked(Command::MovePaneBoundaryLeft).0,
                AppModel {
                    state: StateModel { pane_boundary: narrow, ..app.state },
                    pending_boundary_save: if boundary.percent > 25 {
                        Some(narrow)
                    } else {
                        app.pending_boundary_save
                    },
                    ..app
                },
            )
            &&& same_surroundings(
                app.invoked(Command::MovePaneBoundaryRight).0,
                AppModel {
                    state: StateModel { pane_boundary: wide, ..app.state },
                    pending_boundary_save: if boundary.percent < 75 {
                        Some(wide)
                    } else {
                        app.pending_boundary_save
                    },
                    ..app
                },
            )
        }),
{
    reveal(AppModel::dispatched);
    reveal(AppModel::carried_out);
    reveal(AppModel::boundary_resized);
    lemma_left_alone(app, Command::MovePaneBoundaryLeft);
    lemma_surroundings(app.dispatched(Command::MovePaneBoundaryLeft));
    lemma_left_alone(app, Command::MovePaneBoundaryRight);
    lemma_surroundings(app.dispatched(Command::MovePaneBoundaryRight));
}

/// A drag takes hold of the Pane Boundary, carries it to a share between a
/// quarter and three quarters, and lets it go, to be saved if it moved.
pub proof fn law_the_boundary_is_dragged(app: AppModel, column: u16, share: u16)
    ensures
        ({
            let boundary = app.state.pane_boundary;
            let carried = BoundaryModel {
                percent: if share < 25 {
                    25
                } else if share > 75 {
                    75
                } else {
                    share as int
                },
                ..boundary
            };
            let free = BoundaryModel { grab: None, ..boundary };
            &&& same_surroundings(
                app.invoked(Command::GrabPaneBoundary(column)).0,
                AppModel {
                    state: StateModel {
                        pane_boundary: BoundaryModel { grab: Some(column), ..boundary },
                        ..app.state
                    },
                    boundary_before_drag: Some(boundary),
                    ..app
                },
            )
            &&& same_surroundings(
                app.invoked(Command::SetPaneBoundary(share)).0,
                AppModel { state: StateModel { pane_boundary: carried, ..app.state }, ..app },
            )
            &&& same_surroundings(
                app.invoked(Command::ReleasePaneBoundary).0,
                AppModel {
                    state: StateModel { pane_boundary: free, ..app.state },
                    boundary_before_drag: None,
                    pending_boundary_save: if app.boundary_before_drag matches Some(before)
                        && before.percent != boundary.percent {
                        Some(free)
                    } else {
                        app.pending_boundary_save
                    },
                    ..app
                },
            )
        }),
{
    reveal(AppModel::dispatched);
    reveal(AppModel::carried_out);
    reveal(AppModel::boundary_released);
    lemma_left_alone(app, Command::GrabPaneBoundary(column));
    lemma_surroundings(app.dispatched(Command::GrabPaneBoundary(column)));
    lemma_left_alone(app, Command::SetPaneBoundary(share));
    lemma_surroundings(app.dispatched(Command::SetPaneBoundary(share)));
    lemma_left_alone(app, Command::ReleasePaneBoundary);
    lemma_surroundings(app.dispatched(Command::ReleasePaneBoundary));
}

/// Quitting asks to leave and changes nothing else.
pub proof fn law_quitting_only_leaves(app: AppModel)
    ensures
        same_surroundings(
            app.invoked(Command::Quit).0,
            AppModel { quit_requested: true, ..app },
        ),
{
    reveal(AppModel::dispatched);
    reveal(AppModel::carried_out);
    lemma_left_alone(app, Command::Quit);
    lemma_surroundings(app.dispatched(Command::Quit));
}

/// Whether a refresh of a Provider was asked for.
pub open spec fn is_refreshing(
    after: AppModel,
    requests: Seq<RequestModel>,
    before: AppModel,
    provider_id: Seq<char>,
) -> bool {
    &&& requests.len() > 0
    &&& requests[0] == (RequestModel::RefreshWorkspace {
        request_id: ProviderRequestId(before.next_request_id),
        provider_id,
    })
    &&& same_surroundings(
        after,
        AppModel {
            pending_refreshes: before.pending_refreshes.push(
                (ProviderRequestId(before.next_request_id), provider_id),
            ),
            ..before
        },
    )
}

/// The Active Workspace is refreshed when asked to and when the time has come,
/// unless a refresh of it is pending.
pub proof fn law_the_active_workspace_is_refreshed(app: AppModel, workspace: WorkspaceModel)
    requires
        app.active_workspace() == Some(workspace),
    ensures
        ({
            let (asked, requests) = app.invoked(Command::Refresh);
            let (timed, timed_requests) = app.updated(EventModel::RefreshTimerElapsed);
            if exists|i: int|
                0 <= i < app.pending_refreshes.len() && (#[trigger] app.pending_refreshes[i]).1
                    == workspace.provider.id {
                &&& same_surroundings(asked, app)
                &&& same_surroundings(timed, app)
            } else {
                &&& is_refreshing(asked, requests, app, workspace.provider.id)
                &&& is_refreshing(timed, timed_requests, app, workspace.provider.id)
            }
        }),
{
    reveal(AppModel::dispatched);
    reveal(AppModel::applied);
    reveal(AppModel::refreshed);
    reveal(AppModel::refresh_started);
    lemma_left(app, workspace, Command::Refresh);
    lemma_surroundings(app.dispatched(Command::Refresh));
    lemma_surroundings(app.applied(EventModel::RefreshTimerElapsed));
    let pending = pending_providers(app.pending_refreshes);
    let id = workspace.provider.id;
    if pending.contains(id) {
        let i = choose|i: int| 0 <= i < pending.len() && pending[i] == id;
        assert(app.pending_refreshes[i].1 == id);
    }
    if exists|i: int|
        0 <= i < app.pending_refreshes.len() && (#[trigger] app.pending_refreshes[i]).1 == id {
        let i = choose|i: int|
            0 <= i < app.pending_refreshes.len() && (#[trigger] app.pending_refreshes[i]).1 == id;
        assert(pending[i] == id);
    }
}

/// Whether a refresh of a Provider is awaited, at a position of the list, and
/// the Provider was discovered.
pub open spec fn awaits_refresh(
    app: AppModel,
    i: int,
    request_id: ProviderRequestId,
    p: int,
    provider_id: Seq<char>,
) -> bool {
    &&& 0 <= i < app.pending_refreshes.len()
    &&& app.pending_refreshes[i] == (request_id, provider_id)
    &&& forall|j: int| 0 <= j < i ==> (#[trigger] app.pending_refreshes[j]).0 != request_id
    &&& 0 <= p < app.state.providers.len()
    &&& app.state.providers[p].provider.id == provider_id
    &&& forall|q: int|
        0 <= q < p ==> (#[trigger] app.state.providers[q]).provider.id != provider_id
}

proof fn lemma_refresh_found(
    app: AppModel,
    i: int,
    request_id: ProviderRequestId,
    p: int,
    provider_id: Seq<char>,
)
    requires
        awaits_refresh(app, i, request_id, p, provider_id),
    ensures
        crate::text::first_position(pending_ids(app.pending_refreshes), request_id) == Some(i),
        crate::text::first_position(provider_ids(app.state.providers), provider_id) == Some(p),
{
    let ids = pending_ids(app.pending_refreshes);
    assert forall|j: int| 0 <= j < i implies ids[j] != request_id by {
        assert(app.pending_refreshes[j].0 != request_id);
    }
    lemma_first_position_found(ids, request_id, i);
    let providers = provider_ids(app.state.providers);
    assert forall|q: int| 0 <= q < p implies providers[q] != provider_id by {
        assert(app.state.providers[q].provider.id != provider_id);
    }
    lemma_first_position_found(providers, provider_id, p);
}

/// The answer to an awaited refresh is what its Workspace shows: its panels,
/// up to nine, or why there are none. Every panel has the Resource selected
/// that it had before, or its first.
pub proof fn law_a_refresh_is_shown(
    app: AppModel,
    i: int,
    request_id: ProviderRequestId,
    p: int,
    provider_id: Seq<char>,
    result: Result<Seq<PanelModel>, Seq<char>>,
)
    requires
        awaits_refresh(app, i, request_id, p, provider_id),
    ensures
        ({
            let (after, requests) = app.updated(
                EventModel::RefreshCompleted { request_id, provider_id, result },
            );
            let shown = after.state.providers[p];
            let before = app.state.providers[p];
            &&& after.pending_refreshes == app.pending_refreshes.remove(i)
            &&& after.state == (StateModel {
                providers: after.state.providers,
                command_bar: after.state.command_bar,
                ..app.state
            })
            &&& after.state.providers.len() == app.state.providers.len()
            &&& forall|q: int|
                0 <= q < app.state.providers.len() && q != p ==> same_choices(
                    #[trigger] after.state.providers[q],
                    app.state.providers[q],
                )
            &&& shown.provider == before.provider
            &&& match result {
                Ok(panels) => if panels.len() <= 9 {
                    &&& shown.load_state == LoadModel::Ready(panels)
                    &&& shown.panel_navigation.len() == panels.len()
                    &&& forall|k: int|
                        0 <= k < panels.len() ==> (#[trigger] shown.panel_navigation[k]).panel_id
                            == panels[k].id
                } else {
                    same_choices(
                        shown,
                        WorkspaceModel {
                            provider: before.provider,
                            load_state: LoadModel::Error(
                                before.provider.name + " returned "@ + decimal(panels.len())
                                    + " Resource Panels; Tuivir supports at most "@ + decimal(9)
                                    + " Resource Panels so each retains a numbered focus Command"@,
                            ),
                            focused_resource_panel: None,
                            panel_navigation: Seq::empty(),
                            selected_tab: TabModel::Overview,
                            details: None,
                        },
                    )
                },
                Err(message) => same_choices(
                    shown,
                    WorkspaceModel { load_state: LoadModel::Error(message), ..before },
                ),
            }
        }),
{
    lemma_refresh_found(app, i, request_id, p, provider_id);
    let event = EventModel::RefreshCompleted { request_id, provider_id, result };
    reveal(AppModel::applied);
    reveal(AppModel::refresh_completed);
    let applied = app.applied(event);
    lemma_surroundings(applied);
    let after = app.updated(event).0;
    assert forall|q: int| 0 <= q < app.state.providers.len() && q != p implies same_choices(
        #[trigger] after.state.providers[q],
        app.state.providers[q],
    ) by {
        assert(applied.0.state.providers[q] == app.state.providers[q]);
    }
    assert(same_choices(after.state.providers[p], applied.0.state.providers[p]));
}

/// Whether an operation runs, at a position of the list.
pub open spec fn runs_at(app: AppModel, i: int, running: RunningModel) -> bool {
    &&& 0 <= i < app.state.running_commands.len()
    &&& app.state.running_commands[i] == running
    &&& forall|j: int|
        0 <= j < i ==> (#[trigger] app.state.running_commands[j]).request_id != running.request_id
}

/// An operation that failed is reported in one sentence, and no longer runs.
pub proof fn law_a_failed_operation_is_reported(
    app: AppModel,
    i: int,
    running: RunningModel,
    reason: Seq<char>,
)
    requires
        runs_at(app, i, running),
    ensures
        ({
            let (after, requests) = app.updated(
                EventModel::ResourceCommandCompleted {
                    request_id: running.request_id,
                    provider_id: running.provider_id,
                    target: running.target,
                    command: running.command,
                    result: Err(reason),
                },
            );
            same_surroundings(
                after,
                AppModel {
                    state: StateModel {
                        running_commands: app.state.running_commands.remove(i),
                        command_error: Some(
                            running.provider_name + " "@ + (match running.command {
                                ResourceCommand::Start => "start"@,
                                ResourceCommand::Stop => "stop"@,
                                ResourceCommand::Restart => "restart"@,
                                ResourceCommand::Resume => "resume"@,
                                ResourceCommand::Delete => "delete"@,
                            }) + " failed for "@ + running.resource_name + " ("@
                                + running.target.resource_id + "): "@ + reason,
                        ),
                        ..app.state
                    },
                    ..app
                },
            )
        }),
{
    lemma_running_found(app, i, running);
    reveal(AppModel::applied);
    reveal(AppModel::command_completed);
    lemma_surroundings(
        app.applied(
            EventModel::ResourceCommandCompleted {
                request_id: running.request_id,
                provider_id: running.provider_id,
                target: running.target,
                command: running.command,
                result: Err(reason),
            },
        ),
    );
}

proof fn lemma_running_found(app: AppModel, i: int, running: RunningModel)
    requires
        runs_at(app, i, running),
    ensures
        crate::text::first_position(
            running_keys(app.state.running_commands),
            (running.request_id, running.provider_id, running.target, running.command),
        ) == Some(i),
{
    let keys = running_keys(app.state.running_commands);
    let key = (running.request_id, running.provider_id, running.target, running.command);
    assert forall|j: int| 0 <= j < i implies keys[j] != key by {
        assert(app.state.running_commands[j].request_id != running.request_id);
    }
    lemma_first_position_found(keys, key, i);
}

/// An operation that succeeded no longer runs, no failure is reported, and the
/// Workspace it was for is refreshed while it is the active one.
pub proof fn law_a_finished_operation_refreshes(
    app: AppModel,
    i: int,
    running: RunningModel,
    workspace: WorkspaceModel,
)
    requires
        runs_at(app, i, running),
        app.active_workspace() == Some(workspace),
        !pending_providers(app.pending_refreshes).contains(workspace.provider.id),
    ensures
        ({
            let (after, requests) = app.updated(
                EventModel::ResourceCommandCompleted {
                    request_id: running.request_id,
                    provider_id: running.provider_id,
                    target: running.target,
                    command: running.command,
                    result: Ok(()),
                },
            );
            let ended = AppModel {
                state: StateModel {
                    running_commands: app.state.running_commands.remove(i),
                    command_error: None,
                    ..app.state
                },
                ..app
            };
            if running.provider_id == workspace.provider.id {
                is_refreshing(after, requests, ended, running.provider_id)
            } else {
                same_surroundings(after, ended)
            }
        }),
{
    lemma_running_found(app, i, running);
    reveal(AppModel::applied);
    reveal(AppModel::command_completed);
    reveal(AppModel::refreshed);
    reveal(AppModel::refresh_started);
    lemma_surroundings(
        app.applied(
            EventModel::ResourceCommandCompleted {
                request_id: running.request_id,
                provider_id: running.provider_id,
                target: running.target,
                command: running.command,
                result: Ok(()),
            },
        ),
    );
}

/// A discovered Provider is added behind the others. The first one becomes the
/// active one and is refreshed, unless it was found to be unavailable.
pub proof fn law_a_discovered_provider_is_added(
    app: AppModel,
    provider: ProviderModel,
    error: Option<Seq<char>>,
)
    requires
        app.state.providers.len() < usize::MAX,
        app.state.active_provider is None ==> app.state.providers.len() == 0,
        app.state.active_provider matches Some(active) ==> active < app.state.providers.len(),
    ensures
        ({
            let (after, requests) = app.updated(EventModel::ProviderDiscovered { provider, error });
            let n = app.state.providers.len() as int;
            let added = after.state.providers[n];
            &&& after.state.providers.len() == n + 1
            &&& forall|q: int|
                0 <= q < n ==> same_choices(
                    #[trigger] after.state.providers[q],
                    app.state.providers[q],
                )
            &&& added.provider == provider
            &&& added.load_state == (match error {
                Some(message) => LoadModel::Error(message),
                None => LoadModel::Loading,
            })
            &&& added.focused_resource_panel is None
            &&& added.panel_navigation.len() == 0
            &&& after.state.active_provider == (if n == 0 {
                Some(0usize)
            } else {
                app.state.active_provider
            })
            &&& n == 0 && error is None ==> requests.len() > 0 && requests[0]
                == (RequestModel::RefreshWorkspace {
                request_id: ProviderRequestId(app.next_request_id),
                provider_id: provider.id,
            })
            &&& n > 0 ==> after.pending_refreshes == app.pending_refreshes
        }),
{
    let event = EventModel::ProviderDiscovered { provider, error };
    reveal(AppModel::applied);
    reveal(AppModel::provider_discovered);
    reveal(AppModel::refresh_started);
    let applied = app.applied(event);
    lemma_surroundings(applied);
    let n = app.state.providers.len() as int;
    let after = app.updated(event).0;
    assert(same_choices(after.state.providers[n], applied.0.state.providers[n]));
    assert forall|q: int| 0 <= q < n implies same_choices(
        #[trigger] after.state.providers[q],
        app.state.providers[q],
    ) by {
        assert(applied.0.state.providers[q] == app.state.providers[q]);
    }
}

} // verus!
