//! How the details come to the screen, and what a run and a refresh start from.

use vstd::prelude::*;

use super::command_laws::{
    lemma_followed, lemma_left, lemma_replaced, lemma_stands, same_surroundings, unselected,
};
use super::effect_laws::lemma_surroundings;
use super::model::{provider_ids, AppModel, EventModel, Outcome};
use super::ring_laws::{inspects, tab_at};
use super::state::{hints_of, FocusedPane, StateModel};
use crate::application::command::{commands_of, Command, CommandModel};
use crate::application::key::shown;
use crate::application::pane_boundary::BoundaryModel;
use crate::application::provider::{
    all_resources, all_targets, carried_ids, output_lines, panel_ids, panel_targets,
    possible_commands, resource_ids, view_ids, DetailViewSource, LifecycleCommandPolicy, PanelModel,
    ProviderRequestId, RequestModel,
};
use crate::application::command::ResourceCommand;
use crate::application::shell::ResourceShellPresentation;
use crate::application::workspace::model::{
    navigation_ids, reconciled_navigation, CompletionModel, ContentModel, DetailTargetModel,
    DetailsModel, LoadRequestModel, WorkspaceModel,
};
use crate::domain::{ResourceState, TargetModel};
use crate::text::{
    lemma_first_position, lemma_first_position_found, lemma_first_position_none, lines_of,
};
use crate::text_laws::law_a_trailing_character_is_dropped;

verus! {

/// The view that a tab of a Resource shows.
pub open spec fn view_of(panels: Seq<PanelModel>, p: int, s: int, k: int) -> DetailTargetModel {
    DetailTargetModel {
        resource: TargetModel {
            panel_id: panels[p].id,
            resource_id: panels[p].resources[s].id,
        },
        view_id: panels[p].detail_views[k - 1].id,
    }
}

proof fn lemma_view(workspace: WorkspaceModel, panels: Seq<PanelModel>, p: int, s: int, k: int)
    requires
        inspects(workspace, panels, p, s),
        1 <= k <= panels[p].detail_views.len(),
        workspace.selected_tab == tab_at(panels[p], k),
    ensures
        workspace.visible_identity() == Some(view_of(panels, p, s, k)),
        workspace.detail_target() == Some(
            (panels[p].resources[s], panels[p].detail_views[k - 1]),
        ),
        crate::text::first_position(
            view_ids(panels[p].detail_views),
            panels[p].detail_views[k - 1].id,
        ) == Some(k - 1),
{
    lemma_stands(workspace, panels, p, s);
    let views = panels[p].detail_views;
    let ids = view_ids(views);
    assert forall|j: int| 0 <= j < k - 1 implies ids[j] != views[k - 1].id by {
        assert(views[j].id != views[k - 1].id);
    }
    lemma_first_position_found(ids, views[k - 1].id, k - 1);
}

/// A view that comes to the screen and that its Provider has to answer is asked
/// for, and shown as loading, from its first line and with nothing selected.
pub proof fn law_a_view_is_asked_for_when_it_is_shown(
    outcome: Outcome,
    workspace: WorkspaceModel,
    panels: Seq<PanelModel>,
    p: int,
    s: int,
    k: int,
)
    requires
        outcome.0.active_workspace() == Some(workspace),
        inspects(workspace, panels, p, s),
        1 <= k <= panels[p].detail_views.len(),
        workspace.selected_tab == tab_at(panels[p], k),
        panels[p].detail_views[k - 1].source == DetailViewSource::Provider,
        workspace.details matches Some(details) ==> details.target != view_of(panels, p, s, k),
    ensures
        ({
            let (after, requests) = AppModel::followed_up(outcome);
            let request_id = ProviderRequestId(outcome.0.next_request_id);
            &&& after.active_workspace() == Some(
                WorkspaceModel {
                    details: Some(
                        DetailsModel {
                            request_id: Some(request_id),
                            provider_id: workspace.provider.id,
                            target: view_of(panels, p, s, k),
                            resource_name: panels[p].resources[s].name,
                            title: panels[p].detail_views[k - 1].title,
                            content: ContentModel::Loading,
                            scroll: 0,
                            selection: None,
                        },
                    ),
                    ..workspace
                },
            )
            &&& requests == outcome.1.push(
                RequestModel::LoadResourceDetails {
                    request_id,
                    provider_id: workspace.provider.id,
                    target: view_of(panels, p, s, k).resource,
                    view_id: panels[p].detail_views[k - 1].id,
                },
            )
        }),
{
    lemma_view(workspace, panels, p, s, k);
    lemma_stands(workspace, panels, p, s);
    lemma_followed(outcome, workspace);
    reveal(AppModel::details_synced);
    reveal(AppModel::bar_updated);
    let requests = AppModel::followed_up(outcome).1;
    assert(requests =~= outcome.1.push(requests.last()));
}

/// A view whose content came with the snapshot is shown at once and asks for
/// nothing.
pub proof fn law_carried_content_is_shown_at_once(
    outcome: Outcome,
    workspace: WorkspaceModel,
    panels: Seq<PanelModel>,
    p: int,
    s: int,
    k: int,
    d: int,
)
    requires
        outcome.0.active_workspace() == Some(workspace),
        inspects(workspace, panels, p, s),
        1 <= k <= panels[p].detail_views.len(),
        workspace.selected_tab == tab_at(panels[p], k),
        panels[p].detail_views[k - 1].source == DetailViewSource::Snapshot,
        workspace.details matches Some(details) ==> details.target != view_of(panels, p, s, k),
        0 <= d < panels[p].resources[s].snapshot_details.len(),
        panels[p].resources[s].snapshot_details[d].0 == panels[p].detail_views[k - 1].id,
        forall|e: int|
            0 <= e < d ==> (#[trigger] panels[p].resources[s].snapshot_details[e]).0
                != panels[p].detail_views[k - 1].id,
    ensures
        ({
            let (after, requests) = AppModel::followed_up(outcome);
            &&& after.active_workspace() matches Some(shown) && shown.details matches Some(details)
                && details.content == ContentModel::Ready(
                panels[p].resources[s].snapshot_details[d].1,
            ) && details.target == view_of(panels, p, s, k) && details.request_id is None
                && details.title == panels[p].detail_views[k - 1].title && details.scroll == 0
            &&& requests == outcome.1
        }),
{
    lemma_view(workspace, panels, p, s, k);
    lemma_stands(workspace, panels, p, s);
    lemma_followed(outcome, workspace);
    let carried = panels[p].resources[s].snapshot_details;
    let id = panels[p].detail_views[k - 1].id;
    let ids = carried_ids(carried);
    assert forall|e: int| 0 <= e < d implies ids[e] != id by {
        assert(carried[e].0 != id);
    }
    lemma_first_position_found(ids, id, d);
    reveal(AppModel::details_synced);
    reveal(AppModel::bar_updated);
    assert(AppModel::followed_up(outcome).1 =~= outcome.1);
}

/// While the Overview or the shell is shown there are no details, and nothing
/// is asked for.
pub proof fn law_only_views_have_details(
    outcome: Outcome,
    workspace: WorkspaceModel,
)
    requires
        outcome.0.active_workspace() == Some(workspace),
        workspace.selected_tab is Overview || workspace.selected_tab is Shell,
    ensures
        ({
            let (after, requests) = AppModel::followed_up(outcome);
            &&& after.active_workspace() == Some(WorkspaceModel { details: None, ..workspace })
            &&& requests == outcome.1
        }),
{
    lemma_followed(outcome, workspace);
    reveal(AppModel::details_synced);
    reveal(AppModel::bar_updated);
    assert(AppModel::followed_up(outcome).1 =~= outcome.1);
}

/// The answer to an awaited view is what its details show from then on: its
/// lines, or why there are none.
pub proof fn law_an_answered_view_is_shown(
    app: AppModel,
    p: int,
    workspace: WorkspaceModel,
    details: DetailsModel,
    request_id: ProviderRequestId,
    result: Result<Seq<Seq<char>>, Seq<char>>,
)
    requires
        app.active_workspace() == Some(workspace),
        app.state.active_provider == Some(p as usize),
        0 <= p < app.state.providers.len() <= usize::MAX,
        forall|q: int|
            0 <= q < p ==> (#[trigger] app.state.providers[q]).provider.id != workspace.provider.id,
        workspace.details == Some(details),
        workspace.visible_identity() == Some(details.target),
        workspace.detail_target() is Some,
        details.content is Loading,
        details.request_id == Some(request_id),
        details.provider_id == workspace.provider.id,
    ensures
        ({
            let (after, requests) = app.updated(
                EventModel::ResourceDetailsCompleted {
                    request_id,
                    provider_id: workspace.provider.id,
                    target: details.target.resource,
                    view_id: details.target.view_id,
                    result,
                },
            );
            &&& after.active_workspace() == Some(
                WorkspaceModel {
                    details: Some(
                        DetailsModel {
                            request_id: None,
                            content: match result {
                                Ok(lines) => ContentModel::Ready(lines),
                                Err(message) => ContentModel::Error(message),
                            },
                            ..details
                        },
                    ),
                    ..workspace
                },
            )
            &&& same_surroundings(after, app)
            &&& requests.len() == 0
        }),
{
    let event = EventModel::ResourceDetailsCompleted {
        request_id,
        provider_id: workspace.provider.id,
        target: details.target.resource,
        view_id: details.target.view_id,
        result,
    };
    let ids = provider_ids(app.state.providers);
    assert forall|q: int| 0 <= q < p implies ids[q] != workspace.provider.id by {
        assert(app.state.providers[q].provider.id != workspace.provider.id);
    }
    lemma_first_position_found(ids, workspace.provider.id, p);
    let completion = CompletionModel {
        load: LoadRequestModel {
            request_id,
            provider_id: workspace.provider.id,
            target: DetailTargetModel {
                resource: details.target.resource,
                view_id: details.target.view_id,
            },
        },
        result,
    };
    let shown = workspace.with_completion(completion);
    reveal(AppModel::applied);
    reveal(AppModel::details_completed);
    lemma_replaced(app, workspace, shown);
    assert(app.applied(event).0 == app.with_active(shown));
    assert(shown.visible_identity() == workspace.visible_identity());
    assert(shown.detail_target() == workspace.detail_target());
    lemma_followed(app.applied(event), shown);
    reveal(AppModel::details_synced);
    reveal(AppModel::bar_updated);
}

/// A run starts without Providers, with the Resource Panels in focus and
/// nothing open, and counts its requests and sessions from one.
pub proof fn law_a_run_starts_empty(registry: Seq<CommandModel>, boundary: BoundaryModel)
    ensures
        ({
            let app = AppModel::initial(registry, boundary);
            &&& app.state.providers.len() == 0
            &&& app.state.focused_pane == FocusedPane::Resources
            &&& app.state.active_provider is None
            &&& app.state.pane_boundary == boundary
            &&& app.state.help_overlay is None
            &&& app.state.confirmation is None
            &&& app.state.command_error is None
            &&& app.state.resource_shell_sessions.len() == 0
            &&& app.state.resource_shell_presentation == ResourceShellPresentation::Details
            &&& app.state.running_commands.len() == 0
            &&& app.state.pending_details_copy is None
            &&& app.commands == registry
            &&& app.next_request_id == 1
            &&& app.next_session_id == 1
            &&& app.pending_refreshes.len() == 0
            &&& app.pending_effects.len() == 0
            &&& app.boundary_before_drag is None
            &&& app.pending_boundary_save is None
            &&& !app.quit_requested
        }),
{
}

/// Whether a Command is registered at a position, the first of it.
pub open spec fn registered_at(registry: Seq<CommandModel>, i: int, command: Command) -> bool {
    &&& 0 <= i < registry.len()
    &&& registry[i].command == command
    &&& forall|j: int| 0 <= j < i ==> (#[trigger] registry[j]).command != command
}

/// A Pane is shown the first key that focuses it, and none where it has none.
pub proof fn law_panes_show_their_first_key(
    registry: Seq<CommandModel>,
    i: int,
    command: Command,
)
    requires
        registered_at(registry, i, command),
    ensures
        ({
            let key = if registry[i].keys.len() > 0 {
                Some(shown(registry[i].keys[0]))
            } else {
                None
            };
            let hints = hints_of(registry);
            &&& hints.focus_resource_panels.len() == 9
            &&& command == Command::FocusProviders ==> hints.focus_providers == key
            &&& command == Command::FocusDetails ==> hints.focus_details == key
            &&& forall|panel: int|
                #![trigger hints.focus_resource_panels[panel]]
                0 <= panel < 9 && command == Command::FocusResourcePanel(panel as usize)
                    ==> hints.focus_resource_panels[panel] == key
        }),
{
    let commands = commands_of(registry);
    assert forall|j: int| 0 <= j < i implies commands[j] != command by {
        assert(registry[j].command != command);
    }
    lemma_first_position_found(commands, command, i);
}

/// After a refresh a panel has the Resource selected that it had, wherever that
/// is now, and otherwise its first; the focus stays where it was, or goes to
/// the first panel.
pub proof fn law_a_refresh_keeps_what_is_still_there(
    workspace: WorkspaceModel,
    panels: Seq<PanelModel>,
    p: int,
    q: int,
    s: int,
)
    requires
        0 <= p < panels.len(),
    ensures
        ({
            let after = workspace.reconciled(panels);
            let entry = after.panel_navigation[p];
            let remembered = workspace.panel_navigation;
            &&& entry.panel_id == panels[p].id
            &&& (forall|r: int|
                0 <= r < remembered.len() ==> (#[trigger] remembered[r]).panel_id != panels[p].id)
                && panels[p].resources.len() > 0 ==> entry.selected_index == 0
                && entry.selected_resource == Some(panels[p].resources[0].id)
            &&& panels[p].resources.len() == 0 ==> entry.selected_index == 0
                && entry.selected_resource is None
            &&& 0 <= q < remembered.len() && remembered[q].panel_id == panels[p].id && (forall|r: int|
                0 <= r < q ==> (#[trigger] remembered[r]).panel_id != panels[p].id) && 0 <= s
                < panels[p].resources.len() && remembered[q].selected_resource == Some(
                panels[p].resources[s].id,
            ) && (forall|r: int|
                0 <= r < s ==> (#[trigger] panels[p].resources[r]).id != panels[p].resources[s].id)
                ==> entry.selected_index == s && entry.selected_resource == Some(
                panels[p].resources[s].id,
            )
            &&& workspace.focused_resource_panel is None ==> after.focused_resource_panel == Some(
                panels[0].id,
            )
            &&& workspace.focused_resource_panel == Some(panels[p].id)
                ==> after.focused_resource_panel == Some(panels[p].id)
            &&& workspace.focused_resource_panel matches Some(id) ==> ((forall|r: int|
                0 <= r < panels.len() ==> (#[trigger] panels[r]).id != id)
                ==> after.focused_resource_panel == Some(panels[0].id))
        }),
{
    let after = workspace.reconciled(panels);
    let entry = after.panel_navigation[p];
    let remembered = workspace.panel_navigation;
    let panel = panels[p];
    assert(entry == reconciled_navigation(remembered, panel));
    let ids = navigation_ids(remembered);
    let resources = resource_ids(panel.resources);
    if panel.resources.len() > 0 {
        lemma_first_position_found(resources, panel.resources[0].id, 0);
    }
    if forall|r: int|
        0 <= r < remembered.len() ==> (#[trigger] remembered[r]).panel_id != panel.id {
        assert forall|r: int| 0 <= r < ids.len() implies ids[r] != panel.id by {
            assert(remembered[r].panel_id != panel.id);
        }
        lemma_first_position_none(ids, panel.id);
    }
    if panel.resources.len() == 0 {
        if let Some(found) = crate::text::first_position(ids, panel.id) {
            lemma_first_position(ids, panel.id);
            if let Some(selected) = remembered[found].selected_resource {
                lemma_first_position_none(resources, selected);
            }
        }
    }
    if 0 <= q < remembered.len() && remembered[q].panel_id == panel.id && (forall|r: int|
        0 <= r < q ==> (#[trigger] remembered[r]).panel_id != panel.id) && 0 <= s
        < panel.resources.len() && remembered[q].selected_resource == Some(
        panel.resources[s].id,
    ) && (forall|r: int|
        0 <= r < s ==> (#[trigger] panel.resources[r]).id != panel.resources[s].id) {
        assert forall|r: int| 0 <= r < q implies ids[r] != panel.id by {
            assert(remembered[r].panel_id != panel.id);
        }
        lemma_first_position_found(ids, panel.id, q);
        assert forall|r: int| 0 <= r < s implies resources[r] != panel.resources[s].id by {
            assert(panel.resources[r].id != panel.resources[s].id);
        }
        lemma_first_position_found(resources, panel.resources[s].id, s);
    }
    assert(panel_ids(panels)[p] == panel.id);
    if let Some(id) = workspace.focused_resource_panel {
        if panel_ids(panels).contains(id) {
            let r = choose|r: int|
                0 <= r < panel_ids(panels).len() && panel_ids(panels)[r] == id;
            assert(panels[r].id == id);
        }
    }
}

/// A visible session goes from the Details to the whole Workspace and back.
pub proof fn law_a_session_changes_its_size(app: AppModel)
    ensures
        ({
            let after = app.invoked(Command::ToggleResourceShellSize).0;
            same_surroundings(
                after,
                AppModel {
                    state: StateModel {
                        resource_shell_presentation: if app.state.visible_session() is None {
                            app.state.resource_shell_presentation
                        } else if app.state.resource_shell_presentation
                            == ResourceShellPresentation::Details {
                            ResourceShellPresentation::Enlarged
                        } else {
                            ResourceShellPresentation::Details
                        },
                        ..app.state
                    },
                    ..app
                },
            )
        }),
{
    let command = Command::ToggleResourceShellSize;
    super::effect_laws::lemma_left_alone(app, command);
    let left = app.selection_left(command);
    if let Some(workspace) = app.active_workspace() {
        lemma_left(app, workspace, command);
        let quiet = unselected(workspace, command);
        assert(quiet.selected_target() == workspace.selected_target());
        assert(quiet.shows_shell() == workspace.shows_shell());
    } else {
        reveal(AppModel::selection_left);
    }
    assert(left.state.visible_session() == app.state.visible_session());
    reveal(AppModel::dispatched);
    reveal(AppModel::carried_out);
    reveal(AppModel::shell_size_toggled);
    lemma_surroundings(app.dispatched(command));
}

/// What a state leaves possible: a running Resource is stopped, and restarted
/// where its Provider does that; a stopped one is started; a paused one is
/// resumed where its Provider does that; and any can be deleted.
pub proof fn law_a_state_decides_what_is_possible(policy: LifecycleCommandPolicy)
    ensures
        possible_commands(ResourceState::Running, LifecycleCommandPolicy::RestartAndResume) == seq![
            ResourceCommand::Stop,
            ResourceCommand::Restart,
            ResourceCommand::Delete,
        ],
        possible_commands(ResourceState::Running, LifecycleCommandPolicy::StartStop) == seq![
            ResourceCommand::Stop,
            ResourceCommand::Delete,
        ],
        possible_commands(ResourceState::Paused, LifecycleCommandPolicy::RestartAndResume) == seq![
            ResourceCommand::Resume,
            ResourceCommand::Delete,
        ],
        possible_commands(ResourceState::Paused, LifecycleCommandPolicy::StartStop) == seq![
            ResourceCommand::Delete,
        ],
        possible_commands(ResourceState::Stopped, policy) == seq![
            ResourceCommand::Start,
            ResourceCommand::Delete,
        ],
        possible_commands(ResourceState::Transitioning, policy) == seq![ResourceCommand::Delete],
        possible_commands(ResourceState::Broken, policy) == seq![ResourceCommand::Delete],
        possible_commands(ResourceState::Unknown, policy) == seq![ResourceCommand::Delete],
{
}

/// Resources are counted panel by panel, each under the identities of its panel
/// and its own.
pub proof fn law_resources_are_counted_panel_by_panel(panels: Seq<PanelModel>, panel: PanelModel)
    ensures
        all_resources(Seq::empty()).len() == 0,
        all_targets(Seq::empty()).len() == 0,
        all_resources(panels.push(panel)) == all_resources(panels) + panel.resources,
        all_targets(panels.push(panel)) == all_targets(panels) + Seq::new(
            panel.resources.len(),
            |i: int|
                TargetModel { panel_id: panel.id, resource_id: panel.resources[i].id },
        ),
{
    assert(panels.push(panel).drop_last() =~= panels);
    assert(panel_targets(panel) =~= Seq::new(
        panel.resources.len(),
        |i: int| TargetModel { panel_id: panel.id, resource_id: panel.resources[i].id },
    ));
}

/// What a Provider wrote is read line by line, the line breaks at its end left
/// out.
pub proof fn law_output_is_read_line_by_line(text: Seq<char>, breaks: nat)
    requires
        text.len() == 0 || text.last() != '\n',
    ensures
        output_lines(text + Seq::new(breaks, |i: int| '\n')) == lines_of(text),
{
    law_a_trailing_character_is_dropped(text, '\n', breaks);
}

/// After every event and Command the details of the Active Workspace, where it
/// has any, are those of the view on the screen, and that view is declared for
/// a Resource that is there.
pub proof fn law_details_are_those_on_the_screen(
    app: AppModel,
    event: EventModel,
    command: Command,
)
    ensures
        app.updated(event).0.active_workspace() matches Some(workspace) ==> (
        workspace.details matches Some(details) ==> workspace.visible_identity() == Some(
            details.target,
        ) && workspace.detail_target() is Some),
        app.invoked(command).0.active_workspace() matches Some(workspace) ==> (
        workspace.details matches Some(details) ==> workspace.visible_identity() == Some(
            details.target,
        ) && workspace.detail_target() is Some),
{
    lemma_details_settle(app.applied(event));
    lemma_details_settle(app.dispatched(command));
}

proof fn lemma_details_settle(outcome: Outcome)
    ensures
        AppModel::followed_up(outcome).0.active_workspace() matches Some(workspace) ==> (
        workspace.details matches Some(details) ==> workspace.visible_identity() == Some(
            details.target,
        ) && workspace.detail_target() is Some),
{
    match outcome.0.active_workspace() {
        Some(workspace) => {
            lemma_followed(outcome, workspace);
            let shown = workspace.with_visible_details(
                ProviderRequestId(outcome.0.next_request_id),
            );
            assert(shown.visible_identity() == workspace.visible_identity());
            assert(shown.detail_target() == workspace.detail_target());
        },
        None => {
            reveal(AppModel::details_synced);
            reveal(AppModel::bar_updated);
        },
    }
}

} // verus!
