//! Which Detail View request is current, and for how long.

use vstd::prelude::*;

use super::laws::{lemma_applying_allocates_at_most_one, lemma_dispatching_allocates_at_most_one};
use super::model::{
    panel_overflow_text, provider_ids, AppModel, EventModel, Outcome, DETAIL_SCROLL_LINES,
    FAST_SELECTION_STEP,
};
use super::state::{FocusedPane, StateModel};
use crate::application::command::{Command, CommandModel};
use crate::application::pane_boundary::BoundaryModel;
use crate::application::provider::{PanelModel, ProviderRequestId, RequestModel};
use crate::application::workspace::model::{
    CompletionModel, DetailTargetModel, LoadRequestModel, WorkspaceModel,
};
use crate::domain::TargetModel;
use crate::text::{first_position, lemma_first_position};

verus! {

impl WorkspaceModel {
    /// Whether the visible Detail View still waits for its content.
    pub open spec fn awaits_details(self) -> bool {
        self.details matches Some(details) && details.content is Loading
    }

    /// Whether the content that the visible Detail View waits for was asked of
    /// this Workspace's Provider, by a request with an identity below `next`.
    pub open spec fn awaits_its_own(self, next: int) -> bool {
        self.awaits_details() ==> {
            &&& self.details->0.provider_id == self.provider.id
            &&& self.details->0.request_id matches Some(id) && id.0 < next
        }
    }

    /// Whether a Workspace waits for nothing that it did not wait for before.
    pub open spec fn awaits_no_more_than(self, before: WorkspaceModel) -> bool {
        &&& self.provider == before.provider
        &&& self.awaits_details() ==> {
            &&& before.awaits_details()
            &&& self.details->0.request_id == before.details->0.request_id
            &&& self.details->0.provider_id == before.details->0.provider_id
            &&& self.details->0.target == before.details->0.target
        }
    }
}

impl AppModel {
    /// Whether the Workspace at a position is the active one.
    pub open spec fn is_active(self, index: int) -> bool {
        self.state.active_provider matches Some(active) && active == index
    }

    /// Only the Active Workspace waits for the content of a Detail View, and it
    /// waits for a request of its own.
    pub open spec fn loads_fit(self) -> bool {
        forall|i: int|
            0 <= i < self.state.providers.len() ==> {
                &&& (#[trigger] self.state.providers[i]).awaits_its_own(
                    self.next_request_id as int,
                )
                &&& self.state.providers[i].awaits_details() ==> self.is_active(i)
            }
    }

    /// Whether no Workspace waits for anything that it did not wait for before,
    /// and a Workspace that was left waits for nothing.
    pub open spec fn starts_no_load(self, before: AppModel) -> bool {
        &&& before.state.providers.len() <= self.state.providers.len()
        &&& before.next_request_id <= self.next_request_id
        &&& forall|i: int|
            0 <= i < before.state.providers.len() ==> (
            #[trigger] self.state.providers[i]).awaits_no_more_than(before.state.providers[i])
        &&& forall|i: int|
            before.state.providers.len() <= i < self.state.providers.len() ==> !(
            #[trigger] self.state.providers[i]).awaits_details()
        &&& self.state.active_provider != before.state.active_provider ==> (
        before.state.active_provider matches Some(active) ==> (active
            < before.state.providers.len() ==> !self.state.providers[active as int].awaits_details()))
    }
}

impl AppModel {
    /// Whether no load was started and no Workspace was added or removed.
    pub open spec fn keeps_workspaces(self, before: AppModel) -> bool {
        &&& self.starts_no_load(before)
        &&& self.state.providers.len() == before.state.providers.len()
    }
}

/// Whether a list of requests asks for a Detail View.
pub open spec fn asks_for_details(requests: Seq<RequestModel>) -> bool {
    exists|i: int| 0 <= i < requests.len() && #[trigger] requests[i] is LoadResourceDetails
}

proof fn lemma_chained(first: AppModel, second: AppModel, third: AppModel)
    requires
        second.keeps_workspaces(first),
        third.keeps_workspaces(second),
    ensures
        third.keeps_workspaces(first),
{
    assert forall|i: int| 0 <= i < first.state.providers.len() implies (
    #[trigger] third.state.providers[i]).awaits_no_more_than(first.state.providers[i]) by {
        assert(second.state.providers[i].awaits_no_more_than(first.state.providers[i]));
        assert(third.state.providers[i].awaits_no_more_than(second.state.providers[i]));
    }
    assert forall|i: int|
        first.state.providers.len() <= i < third.state.providers.len() implies !(
    #[trigger] third.state.providers[i]).awaits_details() by {
        if i < second.state.providers.len() {
            assert(!second.state.providers[i].awaits_details());
            assert(third.state.providers[i].awaits_no_more_than(second.state.providers[i]));
        }
    }
    if let Some(active) = first.state.active_provider {
        if active < first.state.providers.len() {
            assert(second.state.providers[active as int].awaits_no_more_than(
                first.state.providers[active as int],
            ));
            assert(third.state.providers[active as int].awaits_no_more_than(
                second.state.providers[active as int],
            ));
        }
    }
}

proof fn lemma_untouched(before: AppModel, after: AppModel)
    requires
        after.state.providers == before.state.providers,
        after.state.active_provider == before.state.active_provider,
        before.next_request_id <= after.next_request_id,
    ensures
        after.keeps_workspaces(before),
{
}

proof fn lemma_replaced(app: AppModel, p: int, workspace: WorkspaceModel)
    requires
        0 <= p < app.state.providers.len(),
        workspace.awaits_no_more_than(app.state.providers[p]),
    ensures
        app.with_provider(p, workspace).keeps_workspaces(app),
{
    let after = app.with_provider(p, workspace);
    assert forall|i: int| 0 <= i < app.state.providers.len() implies (
    #[trigger] after.state.providers[i]).awaits_no_more_than(app.state.providers[i]) by {}
}

proof fn lemma_active_replaced(app: AppModel, workspace: WorkspaceModel)
    requires
        app.active_workspace() matches Some(active) && workspace.awaits_no_more_than(active),
    ensures
        app.with_active(workspace).keeps_workspaces(app),
{
    lemma_replaced(app, app.state.active_provider->0 as int, workspace);
}

proof fn lemma_focus_step(w: WorkspaceModel, panel_id: Seq<char>)
    ensures
        w.with_focus(panel_id).awaits_no_more_than(w),
{
}

proof fn lemma_selection_step(w: WorkspaceModel, panel_id: Seq<char>, delta: int)
    ensures
        w.with_moved_selection(panel_id, delta).awaits_no_more_than(w),
{
}

proof fn lemma_choice_step(w: WorkspaceModel, index: int)
    ensures
        w.with_resource_selected_at(index).awaits_no_more_than(w),
{
}

proof fn lemma_tab_step(w: WorkspaceModel, index: int, delta: int)
    ensures
        w.with_tab_moved(delta).awaits_no_more_than(w),
        w.with_tab_selected_at(index).awaits_no_more_than(w),
        w.with_shell_tab().awaits_no_more_than(w),
{
}

proof fn lemma_detail_step(w: WorkspaceModel, delta: int, line: u16, column: u16)
    ensures
        w.with_details_scrolled(delta).awaits_no_more_than(w),
        w.with_selection_begun(line, column).awaits_no_more_than(w),
        w.with_selection_extended(line, column).awaits_no_more_than(w),
        w.without_selection().awaits_no_more_than(w),
        w.without_pending_detail().awaits_no_more_than(w),
        !w.without_pending_detail().awaits_details(),
{
}

proof fn lemma_workspace_steps(
    w: WorkspaceModel,
    panel_id: Seq<char>,
    index: int,
    delta: int,
    line: u16,
    column: u16,
)
    ensures
        w.with_focus(panel_id).awaits_no_more_than(w),
        w.with_moved_selection(panel_id, delta).awaits_no_more_than(w),
        w.with_focused_selection_moved(delta).awaits_no_more_than(w),
        w.with_selection_moved_at(index, delta).awaits_no_more_than(w),
        w.with_resource_selected_at(index).awaits_no_more_than(w),
        w.with_tab_moved(delta).awaits_no_more_than(w),
        w.with_tab_selected_at(index).awaits_no_more_than(w),
        w.with_shell_tab().awaits_no_more_than(w),
        w.with_details_scrolled(delta).awaits_no_more_than(w),
        w.with_selection_begun(line, column).awaits_no_more_than(w),
        w.with_selection_extended(line, column).awaits_no_more_than(w),
        w.without_selection().awaits_no_more_than(w),
        w.without_pending_detail().awaits_no_more_than(w),
        !w.without_pending_detail().awaits_details(),
{
    lemma_focus_step(w, panel_id);
    lemma_selection_step(w, panel_id, delta);
    if let Some(focused) = w.focused_resource_panel {
        lemma_selection_step(w, focused, delta);
    }
    if let Some(id) = w.panel_id_at(index) {
        lemma_selection_step(w, id, delta);
    }
    lemma_choice_step(w, index);
    lemma_tab_step(w, index, delta);
    lemma_detail_step(w, delta, line, column);
}

proof fn lemma_workspace_answers(
    w: WorkspaceModel,
    panels: Seq<PanelModel>,
    message: Seq<char>,
    completion: CompletionModel,
)
    ensures
        w.reconciled(panels).awaits_no_more_than(w),
        w.with_load_error(message).awaits_no_more_than(w),
        w.with_rejected_snapshot(message).awaits_no_more_than(w),
        w.with_completion(completion).awaits_no_more_than(w),
        w.details matches Some(details) ==> (details.awaits(completion.load)
            ==> !w.with_completion(completion).awaits_details()),
{
}

proof fn lemma_refreshed(app: AppModel)
    requires
        app.next_request_id < u64::MAX,
    ensures
        app.refreshed().0.keeps_workspaces(app),
        !asks_for_details(app.refreshed().1),
{
    reveal(AppModel::refreshed);
    reveal(AppModel::refresh_started);
    lemma_untouched(app, app.refreshed().0);
}

proof fn lemma_activated(app: AppModel, index: usize)
    requires
        app.next_request_id < u64::MAX,
    ensures
        app.activated(index).0.keeps_workspaces(app),
        !asks_for_details(app.activated(index).1),
{
    reveal(AppModel::activated);
    reveal(AppModel::active_left);
    if app.state.active_provider == Some(index) {
        lemma_untouched(app, app);
    } else {
        let left = app.active_left();
        let moved = left.with_state(StateModel { active_provider: Some(index), ..left.state });
        if let Some(workspace) = app.active_workspace() {
            lemma_workspace_steps(workspace, Seq::empty(), 0, 0, 0, 0);
            let settled = workspace.without_pending_detail();
            lemma_active_replaced(app, settled);
            let active = app.state.active_provider->0 as int;
            assert(moved.state.providers == app.with_active(settled).state.providers);
            assert(moved.state.providers[active] == settled);
            assert forall|i: int| 0 <= i < app.state.providers.len() implies (
            #[trigger] moved.state.providers[i]).awaits_no_more_than(app.state.providers[i]) by {
                assert(app.with_active(settled).state.providers[i].awaits_no_more_than(
                    app.state.providers[i],
                ));
            }
        } else {
            assert(moved.state.providers == app.state.providers);
        }
        assert(moved.keeps_workspaces(app));
        lemma_refreshed(moved);
        lemma_chained(app, moved, moved.refreshed().0);
    }
}

proof fn lemma_provider_moved(app: AppModel, delta: int)
    requires
        app.next_request_id < u64::MAX,
    ensures
        app.provider_moved(delta).0.keeps_workspaces(app),
        !asks_for_details(app.provider_moved(delta).1),
{
    reveal(AppModel::provider_moved);
    lemma_untouched(app, app);
    if let Some(active) = app.state.active_provider {
        lemma_activated(app, ((active + delta) % (app.state.providers.len() as int)) as usize);
    }
}

proof fn lemma_panel_focused(app: AppModel, index: int)
    ensures
        app.panel_focused(index).keeps_workspaces(app),
{
    reveal(AppModel::panel_focused);
    lemma_untouched(app, app);
    if let Some(workspace) = app.active_workspace() {
        if let Some(id) = workspace.panel_id_at(index) {
            lemma_workspace_steps(workspace, id, 0, 0, 0, 0);
            let focused = app.with_active(workspace.with_focus(id));
            lemma_active_replaced(app, workspace.with_focus(id));
            lemma_untouched(focused, focused.with_focused_pane(FocusedPane::Resources));
            lemma_chained(app, focused, focused.with_focused_pane(FocusedPane::Resources));
        }
    }
}

proof fn lemma_focus_cycled(app: AppModel, delta: int)
    ensures
        app.focus_cycled(delta).keeps_workspaces(app),
{
    reveal(AppModel::focus_cycled);
    reveal(AppModel::pane_focused);
    lemma_untouched(app, app.with_focused_pane(FocusedPane::Providers));
    lemma_untouched(app, app.with_focused_pane(FocusedPane::Details));
    lemma_panel_focused(app, (app.pane_index() + delta) % (app.panel_count() + 2) - 1);
}

proof fn lemma_selection_moved(app: AppModel, delta: int)
    ensures
        app.selection_moved(delta).keeps_workspaces(app),
{
    reveal(AppModel::selection_moved);
    lemma_untouched(app, app);
    if let Some(workspace) = app.active_workspace() {
        lemma_workspace_steps(workspace, Seq::empty(), 0, delta, 0, 0);
        lemma_active_replaced(app, workspace.with_focused_selection_moved(delta));
    }
}

proof fn lemma_resource_selected(app: AppModel, panel: int, resource: int)
    ensures
        app.resource_selected(panel, resource).keeps_workspaces(app),
{
    reveal(AppModel::resource_selected);
    lemma_untouched(app, app);
    if let Some(workspace) = app.active_workspace() {
        if let Some(id) = workspace.panel_id_at(panel) {
            let focused = workspace.with_focus(id);
            let selected = focused.with_resource_selected_at(resource);
            lemma_workspace_steps(workspace, id, 0, 0, 0, 0);
            lemma_workspace_steps(focused, id, resource, 0, 0, 0);
            lemma_active_replaced(app, selected);
            let shown = app.with_active(selected);
            lemma_untouched(shown, shown.with_focused_pane(FocusedPane::Resources));
            lemma_chained(app, shown, shown.with_focused_pane(FocusedPane::Resources));
        }
    }
}

proof fn lemma_tabs(app: AppModel, delta: int, index: int)
    ensures
        app.tab_moved(delta).keeps_workspaces(app),
        app.tab_activated(index).keeps_workspaces(app),
{
    reveal(AppModel::tab_moved);
    reveal(AppModel::tab_activated);
    let focused = app.with_focused_pane(FocusedPane::Details);
    lemma_untouched(app, app);
    lemma_untouched(app, focused);
    if let Some(workspace) = app.active_workspace() {
        lemma_workspace_steps(workspace, Seq::empty(), index, delta, 0, 0);
        lemma_active_replaced(app, workspace.with_tab_moved(delta));
        lemma_active_replaced(focused, workspace.with_tab_selected_at(index));
        lemma_chained(
            app,
            focused,
            focused.with_active(workspace.with_tab_selected_at(index)),
        );
    }
}

proof fn lemma_details(app: AppModel, delta: int, line: u16, column: u16)
    ensures
        app.details_scrolled(delta).keeps_workspaces(app),
        app.selection_begun(line, column).keeps_workspaces(app),
        app.selection_extended(line, column).keeps_workspaces(app),
{
    reveal(AppModel::details_scrolled);
    reveal(AppModel::selection_begun);
    reveal(AppModel::selection_extended);
    let focused = app.with_focused_pane(FocusedPane::Details);
    lemma_untouched(app, app);
    lemma_untouched(app, focused);
    if let Some(workspace) = app.active_workspace() {
        lemma_workspace_steps(workspace, Seq::empty(), 0, delta, line, column);
        lemma_active_replaced(app, workspace.with_details_scrolled(delta));
        lemma_active_replaced(app, workspace.with_selection_extended(line, column));
        lemma_active_replaced(focused, workspace.with_selection_begun(line, column));
        lemma_chained(
            app,
            focused,
            focused.with_active(workspace.with_selection_begun(line, column)),
        );
    }
}

proof fn lemma_edge(app: AppModel, above: bool, column: u16, visible_rows: u16)
    ensures
        app.selection_extended_at_edge(above, column, visible_rows).keeps_workspaces(app),
{
    reveal(AppModel::selection_extended_at_edge);
    lemma_untouched(app, app);
    if let Some(workspace) = app.active_workspace() {
        let delta = if above {
            -1int
        } else {
            1
        };
        let line = if above || visible_rows == 0 {
            0u16
        } else {
            (visible_rows - 1) as u16
        };
        let scrolled = workspace.with_details_scrolled(delta);
        lemma_workspace_steps(workspace, Seq::empty(), 0, delta, 0, 0);
        lemma_workspace_steps(scrolled, Seq::empty(), 0, 0, line, column);
        lemma_active_replaced(app, scrolled.with_selection_extended(line, column));
    }
}

proof fn lemma_shell(app: AppModel)
    ensures
        app.shell_started().keeps_workspaces(app),
        app.shell_opened().keeps_workspaces(app),
{
    reveal(AppModel::shell_started);
    reveal(AppModel::shell_opened);
    lemma_untouched(app, app);
    lemma_untouched(app, app.shell_started());
    if let Some(workspace) = app.active_workspace() {
        if workspace.offers_shell() {
            lemma_workspace_steps(workspace, Seq::empty(), 0, 0, 0, 0);
            let shown = app.with_active(workspace.with_shell_tab());
            lemma_active_replaced(app, workspace.with_shell_tab());
            let after = app.shell_opened();
            lemma_untouched(shown, after);
            lemma_chained(app, shown, after);
        }
    }
}

proof fn lemma_panel_scrolled(app: AppModel, panel: int, delta: int)
    ensures
        app.panel_scrolled(panel, delta).keeps_workspaces(app),
{
    reveal(AppModel::panel_scrolled);
    lemma_untouched(app, app);
    if let Some(workspace) = app.active_workspace() {
        lemma_workspace_steps(workspace, Seq::empty(), panel, delta, 0, 0);
        lemma_active_replaced(app, workspace.with_selection_moved_at(panel, delta));
    }
}

proof fn lemma_carried_out(app: AppModel, command: Command)
    ensures
        app.carried_out(command).keeps_workspaces(app),
{
    reveal(AppModel::carried_out);
    let after = app.carried_out(command);
    match command {
        Command::ToggleHelp => {
            reveal(AppModel::help_toggled);
            lemma_untouched(app, after);
        },
        Command::MovePaneBoundaryLeft | Command::MovePaneBoundaryRight => {
            reveal(AppModel::boundary_resized);
            lemma_untouched(app, after);
        },
        Command::ReleasePaneBoundary => {
            reveal(AppModel::boundary_released);
            lemma_untouched(app, after);
        },
        Command::FocusResourcePanel(index) => {
            lemma_panel_focused(app, index as int);
        },
        Command::FocusNextPane => {
            lemma_focus_cycled(app, 1);
        },
        Command::FocusPreviousPane => {
            lemma_focus_cycled(app, -1);
        },
        Command::SelectNextFast => {
            lemma_selection_moved(app, FAST_SELECTION_STEP as int);
        },
        Command::SelectPreviousFast => {
            lemma_selection_moved(app, -FAST_SELECTION_STEP);
        },
        Command::NextDetailView => {
            lemma_tabs(app, 1, 0);
        },
        Command::PreviousDetailView => {
            lemma_tabs(app, -1, 0);
        },
        Command::ScrollDetailsDown => {
            lemma_details(app, DETAIL_SCROLL_LINES as int, 0, 0);
        },
        Command::ScrollDetailsUp => {
            lemma_details(app, -DETAIL_SCROLL_LINES, 0, 0);
        },
        Command::CopyDetails => {
            reveal(AppModel::details_copied);
            lemma_untouched(app, after);
        },
        Command::BeginDetailsSelection { line, column } => {
            lemma_details(app, 0, line, column);
        },
        Command::ExtendDetailsSelection { line, column } => {
            lemma_details(app, 0, line, column);
        },
        Command::ExtendDetailsSelectionAtEdge { above, column, visible_rows } => {
            lemma_edge(app, above, column, visible_rows);
        },
        Command::OpenShell | Command::StartResourceShell => {
            lemma_shell(app);
        },
        Command::ToggleResourceShellSize => {
            reveal(AppModel::shell_size_toggled);
            lemma_untouched(app, after);
        },
        Command::Cancel => {
            reveal(AppModel::cancelled);
            lemma_untouched(app, after);
        },
        Command::SelectResource { panel, resource } => {
            lemma_resource_selected(app, panel as int, resource as int);
        },
        Command::ActivateDetailView(index) => {
            lemma_tabs(app, 0, index as int);
        },
        Command::ScrollResourcePanelUp(panel) => {
            lemma_panel_scrolled(app, panel as int, -1);
        },
        Command::ScrollResourcePanelDown(panel) => {
            lemma_panel_scrolled(app, panel as int, 1);
        },
        _ => {
            lemma_untouched(app, after);
        },
    }
}

pub(crate) proof fn lemma_dispatched(app: AppModel, command: Command)
    requires
        app.can_allocate(),
    ensures
        app.dispatched(command).0.keeps_workspaces(app),
        !asks_for_details(app.dispatched(command).1),
{
    reveal(AppModel::dispatched);
    reveal(AppModel::selection_left);
    let left = app.selection_left(command);
    lemma_untouched(app, app);
    if let Some(workspace) = app.active_workspace() {
        lemma_workspace_steps(workspace, Seq::empty(), 0, 0, 0, 0);
        lemma_active_replaced(app, workspace.without_selection());
    }
    assert(left.keeps_workspaces(app));
    assert(left.next_request_id == app.next_request_id);
    let after = app.dispatched(command).0;
    match command {
        Command::Refresh => {
            lemma_refreshed(left);
        },
        Command::SelectNext => {
            reveal(AppModel::selected_by_focus);
            lemma_provider_moved(left, 1);
            lemma_selection_moved(left, 1);
            lemma_untouched(left, left);
        },
        Command::SelectPrevious => {
            reveal(AppModel::selected_by_focus);
            lemma_provider_moved(left, -1);
            lemma_selection_moved(left, -1);
            lemma_untouched(left, left);
        },
        Command::NextWorkspace => {
            lemma_provider_moved(left, 1);
        },
        Command::PreviousWorkspace => {
            lemma_provider_moved(left, -1);
        },
        Command::Confirm => {
            reveal(AppModel::confirmed);
            reveal(AppModel::command_dispatched);
            lemma_untouched(left, after);
        },
        Command::Resource(_) => {
            reveal(AppModel::resource_command);
            reveal(AppModel::command_dispatched);
            lemma_untouched(left, after);
        },
        Command::ActivateProviderWorkspace(index) => {
            let focused = left.with_focused_pane(FocusedPane::Providers);
            lemma_untouched(left, left);
            lemma_untouched(left, focused);
            if index < left.state.providers.len() {
                lemma_activated(focused, index);
                lemma_chained(left, focused, after);
            }
        },
        _ => {
            lemma_carried_out(left, command);
        },
    }
    assert(after.keeps_workspaces(left));
    lemma_chained(app, left, after);
}

proof fn lemma_refresh_completed(
    app: AppModel,
    request_id: ProviderRequestId,
    provider_id: Seq<char>,
    result: Result<Seq<PanelModel>, Seq<char>>,
)
    ensures
        app.refresh_completed(request_id, provider_id, result).keeps_workspaces(app),
{
    reveal(AppModel::refresh_completed);
    let after = app.refresh_completed(request_id, provider_id, result);
    lemma_untouched(app, app);
    lemma_first_position(provider_ids(app.state.providers), provider_id);
    if after.state.providers == app.state.providers {
        lemma_untouched(app, after);
    } else {
        let p = first_position(provider_ids(app.state.providers), provider_id)->0;
        let workspace = app.state.providers[p];
        let completion = CompletionModel {
            load: LoadRequestModel {
                request_id,
                provider_id,
                target: workspace.details->0.target,
            },
            result: Err(Seq::empty()),
        };
        let answered = after.state.providers[p];
        match result {
            Ok(panels) => {
                lemma_workspace_answers(
                    workspace,
                    panels,
                    panel_overflow_text(workspace.provider.name, panels.len()),
                    completion,
                );
            },
            Err(message) => {
                lemma_workspace_answers(workspace, Seq::empty(), message, completion);
            },
        }
        assert(answered.awaits_no_more_than(workspace));
        lemma_replaced(app, p, answered);
        lemma_untouched(app.with_provider(p, answered), after);
        lemma_chained(app, app.with_provider(p, answered), after);
    }
}

pub(crate) proof fn lemma_applied(app: AppModel, event: EventModel)
    requires
        app.can_allocate(),
    ensures
        app.applied(event).0.starts_no_load(app),
        event matches EventModel::ProviderDiscovered { provider, .. } ==> {
            &&& app.applied(event).0.state.providers.len() == app.state.providers.len() + 1
            &&& app.applied(event).0.state.providers.last().provider == provider
        },
        !(event is ProviderDiscovered) ==> app.applied(event).0.keeps_workspaces(app),
        !asks_for_details(app.applied(event).1),
{
    reveal(AppModel::applied);
    let after = app.applied(event).0;
    lemma_untouched(app, app);
    match event {
        EventModel::ProviderDiscovered { .. } => {
            reveal(AppModel::provider_discovered);
            reveal(AppModel::refresh_started);
            assert forall|i: int| 0 <= i < app.state.providers.len() implies (
            #[trigger] after.state.providers[i]).awaits_no_more_than(
                app.state.providers[i],
            ) by {
                assert(after.state.providers[i] == app.state.providers[i]);
            }
        },
        EventModel::RefreshTimerElapsed => {
            lemma_refreshed(app);
        },
        EventModel::RefreshCompleted { request_id, provider_id, result } => {
            lemma_refresh_completed(app, request_id, provider_id, result);
        },
        EventModel::ResourceShellStarted { .. } | EventModel::ResourceShellStartFailed { .. } => {
            reveal(AppModel::start_ended);
            lemma_untouched(app, after);
        },
        EventModel::ResourceShellExited { .. } => {
            reveal(AppModel::shell_exited);
            reveal(AppModel::refreshed);
            reveal(AppModel::refresh_started);
            lemma_untouched(app, after);
        },
        EventModel::ResourceCommandCompleted { .. } => {
            reveal(AppModel::command_completed);
            reveal(AppModel::refreshed);
            reveal(AppModel::refresh_started);
            lemma_untouched(app, after);
        },
        EventModel::ResourceDetailsCompleted {
            request_id,
            provider_id,
            target,
            view_id,
            result,
        } => {
            reveal(AppModel::details_completed);
            lemma_first_position(provider_ids(app.state.providers), provider_id);
            let completion = CompletionModel {
                load: LoadRequestModel {
                    request_id,
                    provider_id,
                    target: DetailTargetModel { resource: target, view_id },
                },
                result,
            };
            if let Some(p) = first_position(provider_ids(app.state.providers), provider_id) {
                let workspace = app.state.providers[p];
                lemma_workspace_answers(workspace, Seq::empty(), Seq::empty(), completion);
                lemma_replaced(app, p, workspace.with_completion(completion));
            }
        },
    }
}

/// The details brought in line touch the Active Workspace alone, and ask for
/// what it then waits for.
pub(crate) proof fn lemma_synced(app: AppModel)
    requires
        app.next_request_id < u64::MAX,
    ensures
        ({
            let (after, loads) = app.details_synced();
            &&& after.state.active_provider == app.state.active_provider
            &&& after.state.providers.len() == app.state.providers.len()
            &&& app.next_request_id <= after.next_request_id
            &&& forall|i: int|
                0 <= i < app.state.providers.len() && !app.is_active(i)
                    ==> #[trigger] after.state.providers[i] == app.state.providers[i]
            &&& forall|i: int|
                0 <= i < loads.len() ==> {
                    &&& after.detail_is_current(#[trigger] loads[i])
                    &&& loads[i] matches RequestModel::LoadResourceDetails { request_id, .. }
                        && request_id.0 == app.next_request_id
                }
            &&& app.active_workspace() matches Some(workspace) ==> {
                let shown = after.active_workspace()->0;
                &&& after.active_workspace() is Some
                &&& shown.provider == workspace.provider
                &&& loads.len() == 0 ==> (shown.awaits_details() ==> shown.details
                    == workspace.details)
                &&& loads.len() > 0 ==> shown.details->0.provider_id == workspace.provider.id
                    && shown.details->0.request_id == Some(ProviderRequestId(app.next_request_id))
                    && after.next_request_id == app.next_request_id + 1
            }
            &&& app.active_workspace() is None ==> after == app && loads.len() == 0
        }),
{
    reveal(AppModel::details_synced);
    if let Some(workspace) = app.active_workspace() {
        let request_id = ProviderRequestId(app.next_request_id);
        let shown = workspace.with_visible_details(request_id);
        let active = app.state.active_provider->0 as int;
        let (after, loads) = app.details_synced();
        assert(after.state.providers == app.state.providers.update(active, shown));
        assert(after.active_workspace() == Some(shown));
        if loads.len() > 0 {
            assert(loads.len() == 1);
            assert(workspace.detail_load(request_id) is Some);
            assert(after.detail_is_current(loads[0]));
        }
    }
}

/// What waits after a step that starts no load waited all along.
proof fn lemma_waits_on(app: AppModel, middle: AppModel)
    requires
        app.loads_fit(),
        middle.starts_no_load(app),
    ensures
        middle.loads_fit(),
        middle.active_workspace() matches Some(workspace) ==> (workspace.awaits_details() ==> {
            &&& middle.state.active_provider == app.state.active_provider
            &&& app.active_workspace() is Some
            &&& workspace.awaits_no_more_than(app.active_workspace()->0)
        }),
{
    assert forall|i: int| 0 <= i < middle.state.providers.len() implies {
        &&& (#[trigger] middle.state.providers[i]).awaits_its_own(middle.next_request_id as int)
        &&& middle.state.providers[i].awaits_details() ==> middle.is_active(i)
    } by {
        if i < app.state.providers.len() {
            assert(middle.state.providers[i].awaits_no_more_than(app.state.providers[i]));
            assert(app.state.providers[i].awaits_its_own(app.next_request_id as int));
        }
    }
    if let Some(workspace) = middle.active_workspace() {
        let i = middle.state.active_provider->0 as int;
        assert(middle.state.providers[i] == workspace);
        if workspace.awaits_details() {
            assert(i < app.state.providers.len());
            assert(middle.state.providers[i].awaits_no_more_than(app.state.providers[i]));
            assert(app.state.providers[i].awaits_its_own(app.next_request_id as int));
        }
    }
}

proof fn lemma_synced_loads_fit(app: AppModel)
    requires
        app.loads_fit(),
        app.next_request_id < u64::MAX,
    ensures
        app.details_synced().0.loads_fit(),
{
    lemma_synced(app);
    let (after, loads) = app.details_synced();
    assert forall|i: int| 0 <= i < after.state.providers.len() implies {
        &&& (#[trigger] after.state.providers[i]).awaits_its_own(after.next_request_id as int)
        &&& after.state.providers[i].awaits_details() ==> after.is_active(i)
    } by {
        assert(app.state.providers[i].awaits_its_own(app.next_request_id as int));
        if !app.is_active(i) {
            assert(after.state.providers[i] == app.state.providers[i]);
        } else {
            assert(app.active_workspace() == Some(app.state.providers[i]));
            assert(after.active_workspace() == Some(after.state.providers[i]));
        }
    }
}

/// The bar leaves everything but itself alone.
proof fn lemma_followed_up_is_synced(outcome: Outcome)
    requires
        outcome.0.next_request_id < u64::MAX,
        !asks_for_details(outcome.1),
    ensures
        ({
            let (synced, loads) = outcome.0.details_synced();
            let (after, requests) = AppModel::followed_up(outcome);
            &&& after.state.providers == synced.state.providers
            &&& after.state.active_provider == synced.state.active_provider
            &&& after.next_request_id == synced.next_request_id
            &&& after.active_workspace() == synced.active_workspace()
            &&& asks_for_details(requests) == (loads.len() > 0)
        }),
{
    reveal(AppModel::bar_updated);
    lemma_synced(outcome.0);
    let (synced, loads) = outcome.0.details_synced();
    let (after, requests) = AppModel::followed_up(outcome);
    if loads.len() > 0 {
        assert(requests[outcome.1.len() as int] == loads[0]);
    } else if asks_for_details(requests) {
        let i = choose|i: int|
            0 <= i < requests.len() && #[trigger] requests[i] is LoadResourceDetails;
        assert(outcome.1[i] == requests[i]);
    }
}

/// Whether a request's content is what a Workspace waits for.
spec fn awaited_by(workspace: WorkspaceModel, request: RequestModel) -> bool {
    request matches RequestModel::LoadResourceDetails { request_id, provider_id, target, view_id }
        && workspace.details matches Some(details) && details.awaits(
        LoadRequestModel {
            request_id,
            provider_id,
            target: DetailTargetModel { resource: target, view_id },
        },
    )
}

proof fn lemma_current(app: AppModel, middle: AppModel, request: RequestModel)
    requires
        app.loads_fit(),
        middle.starts_no_load(app),
        middle.next_request_id < u64::MAX,
        app.detail_is_current(request),
    ensures
        ({
            let (after, loads) = middle.details_synced();
            &&& after.detail_is_current(request) <==> (after.active_workspace() matches Some(
                workspace,
            ) && workspace.awaits_details() && loads.len() == 0)
            &&& after.detail_is_current(request) ==> after.state.active_provider
                == app.state.active_provider
        }),
{
    lemma_waits_on(app, middle);
    lemma_synced(middle);
    let (after, loads) = middle.details_synced();
    let active = app.active_workspace()->0;
    assert(awaited_by(active, request));
    assert(app.state.providers[app.state.active_provider->0 as int].awaits_its_own(
        app.next_request_id as int,
    ));
    if let Some(shown) = after.active_workspace() {
        assert(after.detail_is_current(request) == awaited_by(shown, request));
        let workspace = middle.active_workspace()->0;
        if loads.len() == 0 {
            if shown.awaits_details() {
                assert(shown.details == workspace.details);
                assert(workspace.awaits_no_more_than(active));
                assert(awaited_by(shown, request));
            }
        } else {
            assert(shown.details->0.request_id == Some(ProviderRequestId(middle.next_request_id)));
            assert(!awaited_by(shown, request));
        }
    }
}

proof fn lemma_followed_up(app: AppModel, outcome: Outcome, request: RequestModel)
    requires
        app.loads_fit(),
        outcome.0.starts_no_load(app),
        outcome.0.next_request_id < u64::MAX,
        !asks_for_details(outcome.1),
    ensures
        ({
            let (after, requests) = AppModel::followed_up(outcome);
            &&& after.loads_fit()
            &&& app.detail_is_current(request) ==> (after.detail_is_current(request) <==> (
            after.active_workspace() matches Some(workspace) && workspace.awaits_details()
                && !asks_for_details(requests)))
            &&& app.detail_is_current(request) && after.state.active_provider
                != app.state.active_provider ==> !after.detail_is_current(request)
        }),
{
    lemma_waits_on(app, outcome.0);
    lemma_synced_loads_fit(outcome.0);
    lemma_followed_up_is_synced(outcome);
    let synced = outcome.0.details_synced().0;
    let after = AppModel::followed_up(outcome).0;
    assert(after.loads_fit()) by {
        assert forall|i: int| 0 <= i < after.state.providers.len() implies {
            &&& (#[trigger] after.state.providers[i]).awaits_its_own(after.next_request_id as int)
            &&& after.state.providers[i].awaits_details() ==> after.is_active(i)
        } by {
            assert(synced.state.providers[i].awaits_its_own(synced.next_request_id as int));
        }
    }
    assert(after.detail_is_current(request) == synced.detail_is_current(request));
    if app.detail_is_current(request) {
        lemma_current(app, outcome.0, request);
    }
}

/// A request for a Detail View is current right after the event or the Command
/// that it was returned by.
pub proof fn law_a_returned_detail_request_is_current(
    app: AppModel,
    event: EventModel,
    command: Command,
    i: int,
)
    requires
        app.can_allocate(),
    ensures
        0 <= i < app.updated(event).1.len() && app.updated(event).1[i] is LoadResourceDetails
            ==> app.updated(event).0.detail_is_current(app.updated(event).1[i]),
        0 <= i < app.invoked(command).1.len() && app.invoked(command).1[i] is LoadResourceDetails
            ==> app.invoked(command).0.detail_is_current(app.invoked(command).1[i]),
{
    lemma_applied(app, event);
    lemma_applying_allocates_at_most_one(app, event);
    lemma_returned_is_current(app.applied(event), i);
    lemma_dispatched(app, command);
    lemma_dispatching_allocates_at_most_one(app, command);
    lemma_returned_is_current(app.dispatched(command), i);
}

proof fn lemma_returned_is_current(outcome: Outcome, i: int)
    requires
        outcome.0.next_request_id < u64::MAX,
        !asks_for_details(outcome.1),
    ensures
        ({
            let (after, requests) = AppModel::followed_up(outcome);
            0 <= i < requests.len() && requests[i] is LoadResourceDetails
                ==> after.detail_is_current(requests[i])
        }),
{
    reveal(AppModel::bar_updated);
    lemma_synced(outcome.0);
    let (synced, loads) = outcome.0.details_synced();
    let (after, requests) = AppModel::followed_up(outcome);
    assert(after.active_workspace() == synced.active_workspace());
    if 0 <= i < requests.len() && requests[i] is LoadResourceDetails {
        if i < outcome.1.len() {
            assert(outcome.1[i] == requests[i]);
        } else {
            assert(loads[i - outcome.1.len()] == requests[i]);
        }
    }
}

/// At most one request is current: none that differs from it in its identity,
/// its Provider, its Resource or its view, and none that asks for anything but
/// a Detail View.
pub proof fn law_no_other_request_is_current(
    app: AppModel,
    current: RequestModel,
    other: RequestModel,
)
    ensures
        app.detail_is_current(current) && app.detail_is_current(other) ==> other == current,
        !(other is LoadResourceDetails) ==> !app.detail_is_current(other),
{
}

/// A new application waits for nothing.
pub proof fn law_a_new_application_waits_for_nothing(
    registry: Seq<CommandModel>,
    boundary: BoundaryModel,
    request: RequestModel,
)
    ensures
        AppModel::initial(registry, boundary).loads_fit(),
        !AppModel::initial(registry, boundary).detail_is_current(request),
{
}

/// Whatever happens, only the Active Workspace waits for a Detail View, and for
/// a request of its own.
pub proof fn law_only_the_active_workspace_waits(app: AppModel, event: EventModel, command: Command)
    requires
        app.loads_fit(),
        app.can_allocate(),
    ensures
        app.updated(event).0.loads_fit(),
        app.invoked(command).0.loads_fit(),
{
    let any = RequestModel::RefreshWorkspace {
        request_id: ProviderRequestId(0),
        provider_id: Seq::empty(),
    };
    law_a_detail_request_is_current_while_it_is_awaited(app, event, command, any);
}

/// A current request stays current for exactly as long as the Active Workspace
/// waits for a Detail View and nothing newer was asked for.
pub proof fn law_a_detail_request_is_current_while_it_is_awaited(
    app: AppModel,
    event: EventModel,
    command: Command,
    request: RequestModel,
)
    requires
        app.loads_fit(),
        app.can_allocate(),
    ensures
        app.updated(event).0.loads_fit(),
        app.invoked(command).0.loads_fit(),
        app.detail_is_current(request) ==> (app.updated(event).0.detail_is_current(request) <==> (
        app.updated(event).0.active_workspace() matches Some(workspace)
            && workspace.awaits_details() && !asks_for_details(app.updated(event).1))),
        app.detail_is_current(request) ==> (app.invoked(command).0.detail_is_current(request)
            <==> (app.invoked(command).0.active_workspace() matches Some(workspace)
            && workspace.awaits_details() && !asks_for_details(app.invoked(command).1))),
{
    lemma_applied(app, event);
    lemma_applying_allocates_at_most_one(app, event);
    lemma_followed_up(app, app.applied(event), request);
    lemma_dispatched(app, command);
    lemma_dispatching_allocates_at_most_one(app, command);
    lemma_followed_up(app, app.dispatched(command), request);
}

/// A request is no longer current once another Provider Workspace is active.
pub proof fn law_leaving_a_workspace_ends_its_detail_request(
    app: AppModel,
    event: EventModel,
    command: Command,
    request: RequestModel,
)
    requires
        app.loads_fit(),
        app.can_allocate(),
        app.detail_is_current(request),
    ensures
        app.updated(event).0.state.active_provider != app.state.active_provider
            ==> !app.updated(event).0.detail_is_current(request),
        app.invoked(command).0.state.active_provider != app.state.active_provider
            ==> !app.invoked(command).0.detail_is_current(request),
{
    lemma_applied(app, event);
    lemma_applying_allocates_at_most_one(app, event);
    lemma_followed_up(app, app.applied(event), request);
    lemma_dispatched(app, command);
    lemma_dispatching_allocates_at_most_one(app, command);
    lemma_followed_up(app, app.dispatched(command), request);
}

/// A request is no longer current once its completion arrived, whatever its
/// result. No two Providers share an identity, by which a completion finds its
/// Workspace.
pub proof fn law_a_completed_detail_request_is_over(
    app: AppModel,
    request_id: ProviderRequestId,
    provider_id: Seq<char>,
    target: TargetModel,
    view_id: Seq<char>,
    result: Result<Seq<Seq<char>>, Seq<char>>,
)
    requires
        app.loads_fit(),
        app.can_allocate(),
        provider_ids(app.state.providers).no_duplicates(),
        app.detail_is_current(
            RequestModel::LoadResourceDetails { request_id, provider_id, target, view_id },
        ),
    ensures
        !app.updated(
            EventModel::ResourceDetailsCompleted {
                request_id,
                provider_id,
                target,
                view_id,
                result,
            },
        ).0.detail_is_current(
            RequestModel::LoadResourceDetails { request_id, provider_id, target, view_id },
        ),
{
    let request = RequestModel::LoadResourceDetails { request_id, provider_id, target, view_id };
    let event = EventModel::ResourceDetailsCompleted {
        request_id,
        provider_id,
        target,
        view_id,
        result,
    };
    let completion = CompletionModel {
        load: LoadRequestModel {
            request_id,
            provider_id,
            target: DetailTargetModel { resource: target, view_id },
        },
        result,
    };
    lemma_applied(app, event);
    lemma_applying_allocates_at_most_one(app, event);
    let middle = app.applied(event).0;
    let ids = provider_ids(app.state.providers);
    let active = app.state.active_provider->0 as int;
    let workspace = app.state.providers[active];
    assert(workspace.awaits_its_own(app.next_request_id as int));
    assert(ids[active] == provider_id);
    lemma_first_position(ids, provider_id);
    let p = first_position(ids, provider_id)->0;
    assert(p == active);
    assert(middle == app.with_provider(active, workspace.with_completion(completion))) by {
        reveal(AppModel::applied);
        reveal(AppModel::details_completed);
    }
    lemma_workspace_answers(workspace, Seq::empty(), Seq::empty(), completion);
    assert(middle.active_workspace() == Some(workspace.with_completion(completion)));
    assert(!middle.active_workspace()->0.awaits_details());
    lemma_synced(middle);
    reveal(AppModel::bar_updated);
    let (synced, loads) = middle.details_synced();
    let (after, requests) = app.updated(event);
    assert(after.active_workspace() == synced.active_workspace());
    assert(middle.next_request_id == app.next_request_id);
}

} // verus!
