//! What is next to what: Panes, Workspaces and tabs.

use vstd::arithmetic::div_mod::lemma_fundamental_div_mod_converse_mod;
use vstd::prelude::*;

use super::command_laws::{
    has_panel, lemma_followed, lemma_left, lemma_panel_focused, lemma_replaced, lemma_stands,
    same_choices, shows, stands_at, unselected, with_panel_focused,
};
use super::model::{pending_providers, pending_without, AppModel};
use super::state::FocusedPane;
use crate::application::command::Command;
use crate::application::provider::{
    panel_ids, DetailViewModel, PanelModel, ProviderRequestId, RequestModel,
};
use crate::application::workspace::model::{LoadModel, TabModel, WorkspaceModel};
use crate::text::lemma_first_position_found;

verus! {

/// One step around a ring.
proof fn lemma_step(index: int, delta: int, len: int, next: int)
    requires
        0 < len,
        0 <= index < len,
        delta == 1 || delta == -1,
        next == (if index + delta == len {
            0
        } else if index + delta < 0 {
            len - 1
        } else {
            index + delta
        }),
    ensures
        (index + delta) % len == next,
{
    if index + delta == len {
        lemma_fundamental_div_mod_converse_mod(index + delta, len, 1, 0);
    } else if index + delta < 0 {
        assert(index + delta == -1 * len + next);
        lemma_fundamental_div_mod_converse_mod(index + delta, len, -1, next);
    } else {
        lemma_fundamental_div_mod_converse_mod(index + delta, len, 0, next);
    }
}

proof fn lemma_cycled(
    app: AppModel,
    command: Command,
    delta: int,
    workspace: WorkspaceModel,
    panels: Seq<PanelModel>,
    from: int,
    to: int,
)
    requires
        app.active_workspace() == Some(workspace),
        workspace.load_state == LoadModel::Ready(panels),
        app.pane_index() == from,
        0 <= from < panels.len() + 2,
        command == Command::FocusNextPane && delta == 1 || command == Command::FocusPreviousPane
            && delta == -1,
        to == (if from + delta == panels.len() + 2 {
            0
        } else if from + delta < 0 {
            panels.len() as int + 1
        } else {
            from + delta
        }),
        0 < to <= panels.len() ==> has_panel(workspace, panels, to - 1),
    ensures
        to == 0 ==> shows(app.invoked(command).0, app, workspace, FocusedPane::Providers),
        0 < to <= panels.len() ==> shows(
            app.invoked(command).0,
            app,
            with_panel_focused(workspace, panels[to - 1]),
            FocusedPane::Resources,
        ),
        to == panels.len() + 1 ==> shows(
            app.invoked(command).0,
            app,
            workspace,
            FocusedPane::Details,
        ),
{
    lemma_left(app, workspace, command);
    let left = app.selection_left(command);
    let quiet = unselected(workspace, command);
    assert(quiet.focused_panel_index() == workspace.focused_panel_index());
    assert(left.pane_index() == from);
    lemma_step(from, delta, panels.len() as int + 2, to);
    reveal(AppModel::dispatched);
    reveal(AppModel::carried_out);
    reveal(AppModel::focus_cycled);
    reveal(AppModel::pane_focused);
    assert(left.panel_count() == panels.len());
    assert(app.dispatched(command).0 == left.pane_focused(to));
    if 0 < to <= panels.len() {
        lemma_panel_focused(left, quiet, panels, to - 1);
        lemma_followed(app.dispatched(command), left.panel_focused(to - 1).active_workspace()->0);
    } else {
        lemma_followed(app.dispatched(command), quiet);
    }
}

/// Whether every panel of a ready Workspace has an identity of its own.
pub open spec fn panels_differ(workspace: WorkspaceModel, panels: Seq<PanelModel>) -> bool {
    &&& workspace.load_state == LoadModel::Ready(panels)
    &&& panels.len() <= usize::MAX
    &&& forall|p: int, q: int|
        0 <= q < p < panels.len() ==> (#[trigger] panels[q]).id != (#[trigger] panels[p]).id
}

/// From the providers the focus goes on to the first Resource Panel, and back
/// to the Details.
pub proof fn law_the_providers_come_first(
    app: AppModel,
    workspace: WorkspaceModel,
    panels: Seq<PanelModel>,
)
    requires
        app.active_workspace() == Some(workspace),
        panels_differ(workspace, panels),
        app.state.focused_pane == FocusedPane::Providers,
    ensures
        panels.len() > 0 ==> shows(
            app.invoked(Command::FocusNextPane).0,
            app,
            with_panel_focused(workspace, panels[0]),
            FocusedPane::Resources,
        ),
        panels.len() == 0 ==> shows(
            app.invoked(Command::FocusNextPane).0,
            app,
            workspace,
            FocusedPane::Details,
        ),
        shows(app.invoked(Command::FocusPreviousPane).0, app, workspace, FocusedPane::Details),
{
    lemma_cycled(app, Command::FocusNextPane, 1, workspace, panels, 0, 1);
    lemma_cycled(
        app,
        Command::FocusPreviousPane,
        -1,
        workspace,
        panels,
        0,
        panels.len() as int + 1,
    );
}

/// From a Resource Panel the focus goes on to the next one and from the last to
/// the Details; back to the previous one, and from the first to the providers.
pub proof fn law_the_panels_follow_in_order(
    app: AppModel,
    workspace: WorkspaceModel,
    panels: Seq<PanelModel>,
    p: int,
)
    requires
        app.active_workspace() == Some(workspace),
        panels_differ(workspace, panels),
        app.state.focused_pane == FocusedPane::Resources,
        0 <= p < panels.len(),
        workspace.focused_resource_panel == Some(panels[p].id),
    ensures
        p + 1 < panels.len() ==> shows(
            app.invoked(Command::FocusNextPane).0,
            app,
            with_panel_focused(workspace, panels[p + 1]),
            FocusedPane::Resources,
        ),
        p + 1 == panels.len() ==> shows(
            app.invoked(Command::FocusNextPane).0,
            app,
            workspace,
            FocusedPane::Details,
        ),
        p > 0 ==> shows(
            app.invoked(Command::FocusPreviousPane).0,
            app,
            with_panel_focused(workspace, panels[p - 1]),
            FocusedPane::Resources,
        ),
        p == 0 ==> shows(
            app.invoked(Command::FocusPreviousPane).0,
            app,
            workspace,
            FocusedPane::Providers,
        ),
{
    lemma_first_position_found(panel_ids(panels), panels[p].id, p);
    assert(app.pane_index() == p + 1);
    lemma_cycled(app, Command::FocusNextPane, 1, workspace, panels, p + 1, p + 2);
    lemma_cycled(app, Command::FocusPreviousPane, -1, workspace, panels, p + 1, p);
}

/// From the Details the focus goes on to the providers, and back to the last
/// Resource Panel.
pub proof fn law_the_details_come_last(
    app: AppModel,
    workspace: WorkspaceModel,
    panels: Seq<PanelModel>,
)
    requires
        app.active_workspace() == Some(workspace),
        panels_differ(workspace, panels),
        app.state.focused_pane == FocusedPane::Details,
    ensures
        shows(app.invoked(Command::FocusNextPane).0, app, workspace, FocusedPane::Providers),
        panels.len() > 0 ==> shows(
            app.invoked(Command::FocusPreviousPane).0,
            app,
            with_panel_focused(workspace, panels[panels.len() - 1]),
            FocusedPane::Resources,
        ),
        panels.len() == 0 ==> shows(
            app.invoked(Command::FocusPreviousPane).0,
            app,
            workspace,
            FocusedPane::Providers,
        ),
{
    let n = panels.len() as int;
    lemma_cycled(app, Command::FocusNextPane, 1, workspace, panels, n + 1, 0);
    lemma_cycled(app, Command::FocusPreviousPane, -1, workspace, panels, n + 1, n);
}

/// While the Active Workspace is not ready, moving the focus ends at the
/// providers.
pub proof fn law_only_the_providers_without_panels(app: AppModel, workspace: WorkspaceModel)
    requires
        app.active_workspace() == Some(workspace),
        workspace.load_state !is Ready,
    ensures
        shows(app.invoked(Command::FocusNextPane).0, app, workspace, FocusedPane::Providers),
        shows(app.invoked(Command::FocusPreviousPane).0, app, workspace, FocusedPane::Providers),
{
    reveal(AppModel::dispatched);
    reveal(AppModel::carried_out);
    reveal(AppModel::focus_cycled);
    let next = Command::FocusNextPane;
    lemma_left(app, workspace, next);
    lemma_followed(app.dispatched(next), unselected(workspace, next));
    let previous = Command::FocusPreviousPane;
    lemma_left(app, workspace, previous);
    lemma_followed(app.dispatched(previous), unselected(workspace, previous));
}

/// The tab at a position: the Overview, then the declared views in order, then
/// the shell.
pub open spec fn tab_at(panel: PanelModel, k: int) -> TabModel {
    if k == 0 {
        TabModel::Overview
    } else if k <= panel.detail_views.len() {
        TabModel::View(panel.detail_views[k - 1].id)
    } else {
        TabModel::Shell
    }
}

/// How many tabs a Resource of a panel has.
pub open spec fn tab_count(panel: PanelModel, s: int) -> int {
    panel.detail_views.len() + (if panel.resources[s].shell is Some {
        2int
    } else {
        1
    })
}

/// Whether a Workspace stands at a Resource of its focused panel, which
/// declares views of identities of their own.
pub open spec fn inspects(
    workspace: WorkspaceModel,
    panels: Seq<PanelModel>,
    p: int,
    s: int,
) -> bool {
    &&& stands_at(workspace, panels, p, s)
    &&& workspace.focused_resource_panel == Some(panels[p].id)
    &&& forall|j: int, k: int|
        0 <= j < k < panels[p].detail_views.len() ==> (#[trigger] panels[p].detail_views[j]).id
            != (#[trigger] panels[p].detail_views[k]).id
}

proof fn lemma_tabs(workspace: WorkspaceModel, panels: Seq<PanelModel>, p: int, s: int, k: int)
    requires
        inspects(workspace, panels, p, s),
        0 <= k < tab_count(panels[p], s),
    ensures
        workspace.tabs().len() == tab_count(panels[p], s),
        workspace.tabs()[k] == tab_at(panels[p], k),
        crate::text::first_position(workspace.tabs(), tab_at(panels[p], k)) == Some(k),
{
    lemma_stands(workspace, panels, p, s);
    assert(workspace.selected_resource() == Some(panels[p].resources[s]));
    let tabs = workspace.tabs();
    let views = panels[p].detail_views;
    assert forall|j: int| 0 <= j < tabs.len() implies #[trigger] tabs[j] == tab_at(
        panels[p],
        j,
    ) by {
        let declared = views.map_values(|view: DetailViewModel| TabModel::View(view.id));
        if 1 <= j <= views.len() {
            assert(declared[j - 1] == TabModel::View(views[j - 1].id));
        }
    }
    assert forall|j: int| 0 <= j < k implies tabs[j] != tab_at(panels[p], k) by {
        assert(tabs[j] == tab_at(panels[p], j));
        if 1 <= j && k <= views.len() {
            assert(views[j - 1].id != views[k - 1].id);
        }
    }
    assert(tabs[k] == tab_at(panels[p], k));
    lemma_first_position_found(tabs, tab_at(panels[p], k), k);
}

proof fn lemma_tab_moved(
    app: AppModel,
    command: Command,
    delta: int,
    workspace: WorkspaceModel,
    panels: Seq<PanelModel>,
    p: int,
    s: int,
    k: int,
    to: int,
)
    requires
        app.active_workspace() == Some(workspace),
        inspects(workspace, panels, p, s),
        0 <= k < tab_count(panels[p], s),
        workspace.selected_tab == tab_at(panels[p], k),
        command == Command::NextDetailView && delta == 1 || command == Command::PreviousDetailView
            && delta == -1,
        to == (if k + delta == tab_count(panels[p], s) {
            0
        } else if k + delta < 0 {
            tab_count(panels[p], s) - 1
        } else {
            k + delta
        }),
    ensures
        shows(
            app.invoked(command).0,
            app,
            WorkspaceModel { selected_tab: tab_at(panels[p], to), ..workspace },
            app.state.focused_pane,
        ),
{
    lemma_left(app, workspace, command);
    let left = app.selection_left(command);
    let quiet = unselected(workspace, command);
    lemma_tabs(quiet, panels, p, s, k);
    lemma_tabs(quiet, panels, p, s, to);
    lemma_step(k, delta, tab_count(panels[p], s), to);
    let moved = quiet.with_tab_moved(delta);
    assert(same_choices(
        moved,
        WorkspaceModel { selected_tab: tab_at(panels[p], to), ..workspace },
    ));
    lemma_replaced(left, quiet, moved);
    reveal(AppModel::dispatched);
    reveal(AppModel::carried_out);
    reveal(AppModel::tab_moved);
    lemma_followed(app.dispatched(command), moved);
}

/// The tabs are walked in order, the Overview first, then the declared views,
/// then the shell where the Resource has one, and around.
pub proof fn law_the_tabs_follow_in_order(
    app: AppModel,
    workspace: WorkspaceModel,
    panels: Seq<PanelModel>,
    p: int,
    s: int,
    k: int,
)
    requires
        app.active_workspace() == Some(workspace),
        inspects(workspace, panels, p, s),
        0 <= k < tab_count(panels[p], s),
        workspace.selected_tab == tab_at(panels[p], k),
    ensures
        shows(
            app.invoked(Command::NextDetailView).0,
            app,
            WorkspaceModel {
                selected_tab: tab_at(
                    panels[p],
                    if k + 1 < tab_count(panels[p], s) {
                        k + 1
                    } else {
                        0
                    },
                ),
                ..workspace
            },
            app.state.focused_pane,
        ),
        shows(
            app.invoked(Command::PreviousDetailView).0,
            app,
            WorkspaceModel {
                selected_tab: tab_at(
                    panels[p],
                    if k > 0 {
                        k - 1
                    } else {
                        tab_count(panels[p], s) - 1
                    },
                ),
                ..workspace
            },
            app.state.focused_pane,
        ),
{
    let next = if k + 1 < tab_count(panels[p], s) {
        k + 1
    } else {
        0
    };
    let previous = if k > 0 {
        k - 1
    } else {
        tab_count(panels[p], s) - 1
    };
    lemma_tab_moved(app, Command::NextDetailView, 1, workspace, panels, p, s, k, next);
    lemma_tab_moved(app, Command::PreviousDetailView, -1, workspace, panels, p, s, k, previous);
}

/// A tab is chosen by its position, and the Details have the focus then.
pub proof fn law_a_tab_is_chosen_by_position(
    app: AppModel,
    workspace: WorkspaceModel,
    panels: Seq<PanelModel>,
    p: int,
    s: int,
    k: usize,
)
    requires
        app.active_workspace() == Some(workspace),
        inspects(workspace, panels, p, s),
        k < tab_count(panels[p], s),
    ensures
        shows(
            app.invoked(Command::ActivateDetailView(k)).0,
            app,
            WorkspaceModel { selected_tab: tab_at(panels[p], k as int), ..workspace },
            FocusedPane::Details,
        ),
{
    let command = Command::ActivateDetailView(k);
    lemma_left(app, workspace, command);
    let left = app.selection_left(command);
    let quiet = unselected(workspace, command);
    lemma_tabs(quiet, panels, p, s, k as int);
    let chosen = quiet.with_tab_selected_at(k as int);
    assert(same_choices(
        chosen,
        WorkspaceModel { selected_tab: tab_at(panels[p], k as int), ..workspace },
    ));
    lemma_replaced(left.with_focused_pane(FocusedPane::Details), quiet, chosen);
    reveal(AppModel::dispatched);
    reveal(AppModel::carried_out);
    reveal(AppModel::tab_activated);
    lemma_followed(app.dispatched(command), chosen);
}

proof fn lemma_still_absent(
    pending: Seq<(ProviderRequestId, Seq<char>)>,
    left: Seq<char>,
    wanted: Seq<char>,
)
    requires
        !pending_providers(pending).contains(wanted),
    ensures
        !pending_providers(pending_without(pending, left)).contains(wanted),
    decreases pending.len(),
{
    if pending.len() > 0 {
        let rest = pending.drop_last();
        assert forall|i: int| 0 <= i < rest.len() implies pending_providers(rest)[i] != wanted by {
            assert(pending_providers(pending)[i] == rest[i].1);
        }
        lemma_still_absent(rest, left, wanted);
        assert(pending_providers(pending)[pending.len() - 1] == pending.last().1);
        let kept = pending_without(pending, left);
        let earlier = pending_without(rest, left);
        assert forall|i: int| 0 <= i < kept.len() implies pending_providers(kept)[i] != wanted by {
            if i < earlier.len() {
                assert(pending_providers(earlier)[i] == earlier[i].1);
            }
        }
    }
}

/// Whether an application shows another Provider Workspace, as it was left, and
/// asks for a refresh of it.
pub open spec fn turns_to(
    after: AppModel,
    requests: Seq<RequestModel>,
    before: AppModel,
    to: int,
) -> bool {
    &&& after.state.active_provider == Some(to as usize)
    &&& after.state.providers.len() == before.state.providers.len()
    &&& same_choices(after.state.providers[to], before.state.providers[to])
    &&& requests.len() > 0
    &&& requests[0] == (RequestModel::RefreshWorkspace {
        request_id: ProviderRequestId(before.next_request_id),
        provider_id: before.state.providers[to].provider.id,
    })
}

/// Whether there is a Workspace to turn to whose refresh is not pending.
pub open spec fn can_turn_to(app: AppModel, from: int, to: int) -> bool {
    &&& app.state.providers.len() <= usize::MAX
    &&& app.state.active_provider == Some(from as usize)
    &&& 0 <= from < app.state.providers.len()
    &&& 0 <= to < app.state.providers.len()
    &&& from != to
    &&& !pending_providers(app.pending_refreshes).contains(app.state.providers[to].provider.id)
}

proof fn lemma_activated(app: AppModel, from: int, to: int)
    requires
        can_turn_to(app, from, to),
    ensures
        ({
            let (after, requests) = app.activated(to as usize);
            &&& turns_to(after, requests, app, to)
            &&& after.state.providers[to] == app.state.providers[to]
            &&& after.state.focused_pane == app.state.focused_pane
        }),
{
    reveal(AppModel::activated);
    reveal(AppModel::active_left);
    reveal(AppModel::refreshed);
    reveal(AppModel::refresh_started);
    let workspace = app.state.providers[from];
    lemma_still_absent(
        app.pending_refreshes,
        workspace.provider.id,
        app.state.providers[to].provider.id,
    );
    lemma_replaced(app, workspace, workspace.without_pending_detail());
}

proof fn lemma_turned(app: AppModel, command: Command, from: int, to: int)
    requires
        can_turn_to(app, from, to),
        app.dispatched(command) == app.selection_left(command).activated(to as usize)
            || app.dispatched(command) == app.selection_left(command).with_focused_pane(
            FocusedPane::Providers,
        ).activated(to as usize),
    ensures
        ({
            let (after, requests) = app.invoked(command);
            &&& turns_to(after, requests, app, to)
            &&& after.state.focused_pane == app.dispatched(command).0.state.focused_pane
        }),
{
    let workspace = app.state.providers[from];
    lemma_left(app, workspace, command);
    let left = app.selection_left(command);
    lemma_activated(left, from, to);
    lemma_activated(left.with_focused_pane(FocusedPane::Providers), from, to);
    lemma_followed(app.dispatched(command), app.dispatched(command).0.state.providers[to]);
}

/// The next Workspace is the one discovered after the active one, and after the
/// last comes the first; the previous one is the other way round. It is shown
/// as it was left, and refreshed.
pub proof fn law_the_workspaces_follow_in_order(app: AppModel, from: int, to: int)
    requires
        can_turn_to(app, from, to),
    ensures
        to == from + 1 || from + 1 == app.state.providers.len() && to == 0 ==> {
            let (after, requests) = app.invoked(Command::NextWorkspace);
            turns_to(after, requests, app, to) && after.state.focused_pane == app.state.focused_pane
        },
        to == from - 1 || from == 0 && to == app.state.providers.len() - 1 ==> {
            let (after, requests) = app.invoked(Command::PreviousWorkspace);
            turns_to(after, requests, app, to) && after.state.focused_pane == app.state.focused_pane
        },
        app.state.focused_pane == FocusedPane::Providers && (to == from + 1 || from + 1
            == app.state.providers.len() && to == 0) ==> {
            let (after, requests) = app.invoked(Command::SelectNext);
            turns_to(after, requests, app, to) && after.state.focused_pane == app.state.focused_pane
        },
        app.state.focused_pane == FocusedPane::Providers && (to == from - 1 || from == 0 && to
            == app.state.providers.len() - 1) ==> {
            let (after, requests) = app.invoked(Command::SelectPrevious);
            turns_to(after, requests, app, to) && after.state.focused_pane == app.state.focused_pane
        },
{
    reveal(AppModel::dispatched);
    reveal(AppModel::provider_moved);
    reveal(AppModel::selected_by_focus);
    let count = app.state.providers.len() as int;
    let workspace = app.state.providers[from];
    if to == from + 1 || from + 1 == count && to == 0 {
        lemma_step(from, 1, count, to);
        lemma_left(app, workspace, Command::NextWorkspace);
        lemma_activated(app.selection_left(Command::NextWorkspace), from, to);
        lemma_turned(app, Command::NextWorkspace, from, to);
        if app.state.focused_pane == FocusedPane::Providers {
            lemma_left(app, workspace, Command::SelectNext);
            lemma_activated(app.selection_left(Command::SelectNext), from, to);
            lemma_turned(app, Command::SelectNext, from, to);
        }
    }
    if to == from - 1 || from == 0 && to == count - 1 {
        lemma_step(from, -1, count, to);
        lemma_left(app, workspace, Command::PreviousWorkspace);
        lemma_activated(app.selection_left(Command::PreviousWorkspace), from, to);
        lemma_turned(app, Command::PreviousWorkspace, from, to);
        if app.state.focused_pane == FocusedPane::Providers {
            lemma_left(app, workspace, Command::SelectPrevious);
            lemma_activated(app.selection_left(Command::SelectPrevious), from, to);
            lemma_turned(app, Command::SelectPrevious, from, to);
        }
    }
}

/// A Workspace chosen by its position is the one shown, and the providers have
/// the focus then.
pub proof fn law_a_workspace_is_chosen_by_position(app: AppModel, from: int, to: int)
    requires
        can_turn_to(app, from, to),
    ensures
        ({
            let (after, requests) = app.invoked(Command::ActivateProviderWorkspace(to as usize));
            &&& turns_to(after, requests, app, to)
            &&& after.state.focused_pane == FocusedPane::Providers
        }),
{
    reveal(AppModel::dispatched);
    let command = Command::ActivateProviderWorkspace(to as usize);
    lemma_left(app, app.state.providers[from], command);
    lemma_activated(
        app.selection_left(command).with_focused_pane(FocusedPane::Providers),
        from,
        to,
    );
    lemma_turned(app, command, from, to);
}

} // verus!
