//! What each Command does to what is on screen.

use vstd::prelude::*;

use super::model::{keeps_selection, AppModel, Outcome};
use super::state::{FocusedPane, StateModel};
use crate::application::command::Command;
use crate::application::provider::{
    panel_ids, resource_ids, view_ids, PanelModel, ProviderRequestId,
};
use crate::application::workspace::model::{
    moved_navigation, navigation_ids, ContentModel, DetailsModel, LoadModel, NavigationModel,
    TabModel, WorkspaceModel,
};
use crate::text::{lemma_first_position_found, lemma_first_position_none};

verus! {

/// Whether two applications agree in everything but their Workspaces, the bar
/// and the identities that are left.
pub open spec fn same_surroundings(after: AppModel, before: AppModel) -> bool {
    &&& after.state == (StateModel {
        providers: after.state.providers,
        command_bar: after.state.command_bar,
        ..before.state
    })
    &&& after == (AppModel {
        state: after.state,
        next_request_id: after.next_request_id,
        ..before
    })
    &&& same_elsewhere(after, before)
}

/// Whether two applications hold the same Workspaces, the Active one aside.
pub open spec fn same_elsewhere(after: AppModel, before: AppModel) -> bool {
    &&& after.state.active_provider == before.state.active_provider
    &&& after.state.providers.len() == before.state.providers.len()
    &&& forall|i: int|
        0 <= i < before.state.providers.len() && before.state.active_provider != Some(i as usize)
            ==> #[trigger] after.state.providers[i] == before.state.providers[i]
}

/// Whether two Workspaces are the same but for their details.
pub open spec fn same_choices(after: WorkspaceModel, before: WorkspaceModel) -> bool {
    after == (WorkspaceModel { details: after.details, ..before })
}

pub(super) proof fn lemma_replaced(app: AppModel, workspace: WorkspaceModel, replaced: WorkspaceModel)
    requires
        app.active_workspace() == Some(workspace),
    ensures
        app.with_active(replaced).active_workspace() == Some(replaced),
        app.with_active(replaced).state == (StateModel {
            providers: app.with_active(replaced).state.providers,
            ..app.state
        }),
        app.with_active(replaced) == (AppModel { state: app.with_active(replaced).state, ..app }),
        same_elsewhere(app.with_active(replaced), app),
{
}

/// What following up makes of the Active Workspace.
pub(super) proof fn lemma_followed(outcome: Outcome, workspace: WorkspaceModel)
    requires
        outcome.0.active_workspace() == Some(workspace),
    ensures
        ({
            let after = AppModel::followed_up(outcome).0;
            &&& after.active_workspace() == Some(
                workspace.with_visible_details(ProviderRequestId(outcome.0.next_request_id)),
            )
            &&& after.active_workspace() matches Some(shown) && same_choices(shown, workspace)
            &&& same_surroundings(after, outcome.0)
        }),
{
    reveal(AppModel::details_synced);
    reveal(AppModel::bar_updated);
    let shown = workspace.with_visible_details(ProviderRequestId(outcome.0.next_request_id));
    lemma_replaced(outcome.0, workspace, shown);
}

/// The Active Workspace once the Details selection is given up.
pub open spec fn unselected(workspace: WorkspaceModel, command: Command) -> WorkspaceModel {
    if keeps_selection(command) {
        workspace
    } else {
        workspace.without_selection()
    }
}

pub(super) proof fn lemma_left(app: AppModel, workspace: WorkspaceModel, command: Command)
    requires
        app.active_workspace() == Some(workspace),
    ensures
        ({
            let left = app.selection_left(command);
            &&& left.active_workspace() == Some(unselected(workspace, command))
            &&& left.state == (StateModel { providers: left.state.providers, ..app.state })
            &&& left == (AppModel { state: left.state, ..app })
            &&& same_elsewhere(left, app)
        }),
        same_choices(unselected(workspace, command), workspace),
{
    reveal(AppModel::selection_left);
    if !keeps_selection(command) {
        lemma_replaced(app, workspace, workspace.without_selection());
    }
}

/// Whether a Workspace shows loaded details of so many lines, scrolled so far.
pub open spec fn reads(
    workspace: WorkspaceModel,
    details: DetailsModel,
    lines: Seq<Seq<char>>,
) -> bool {
    &&& workspace.details == Some(details)
    &&& workspace.visible_identity() == Some(details.target)
    &&& workspace.detail_target() is Some
    &&& details.content == ContentModel::Ready(lines)
    &&& 0 < lines.len() <= 65536
    &&& details.scroll < lines.len()
}

proof fn lemma_same_reading(after: WorkspaceModel, before: WorkspaceModel)
    requires
        same_choices(after, before),
    ensures
        after.visible_identity() == before.visible_identity(),
        after.detail_target() == before.detail_target(),
{
}

proof fn lemma_scrolled(
    app: AppModel,
    command: Command,
    delta: int,
    workspace: WorkspaceModel,
    details: DetailsModel,
    lines: Seq<Seq<char>>,
    scroll: u16,
)
    requires
        app.active_workspace() == Some(workspace),
        reads(workspace, details, lines),
        command == Command::ScrollDetailsDown && delta == 10 || command == Command::ScrollDetailsUp
            && delta == -10,
        scroll == (if details.scroll + delta < 0 {
            0
        } else if details.scroll + delta > lines.len() - 1 {
            lines.len() - 1
        } else {
            details.scroll + delta
        }),
    ensures
        ({
            let after = app.invoked(command).0;
            &&& after.active_workspace() == Some(
                WorkspaceModel {
                    details: Some(DetailsModel { scroll, selection: None, ..details }),
                    ..workspace
                },
            )
            &&& same_surroundings(after, app)
        }),
{
    lemma_left(app, workspace, command);
    let left = app.selection_left(command);
    let quiet = workspace.without_selection();
    let scrolled = quiet.with_details_scrolled(delta);
    assert(scrolled == (WorkspaceModel {
        details: Some(DetailsModel { scroll, selection: None, ..details }),
        ..workspace
    }));
    lemma_replaced(left, quiet, scrolled);
    reveal(AppModel::dispatched);
    reveal(AppModel::carried_out);
    reveal(AppModel::details_scrolled);
    assert(app.dispatched(command).0 == left.with_active(scrolled));
    lemma_same_reading(scrolled, workspace);
    lemma_followed(app.dispatched(command), scrolled);
}

/// Scrolling the loaded details moves them ten lines and stops at either end:
/// down at the last line, up at the first. Nothing but the selection in them
/// goes with it, and away from the ends one undoes the other.
pub proof fn law_scrolling_moves_ten_lines(
    app: AppModel,
    workspace: WorkspaceModel,
    details: DetailsModel,
    lines: Seq<Seq<char>>,
)
    requires
        app.active_workspace() == Some(workspace),
        reads(workspace, details, lines),
    ensures
        ({
            let down = app.invoked(Command::ScrollDetailsDown).0;
            let up = app.invoked(Command::ScrollDetailsUp).0;
            let last = lines.len() - 1;
            &&& down.active_workspace() matches Some(after) && after.details matches Some(shown)
                && shown.scroll == (if details.scroll + 10 < last {
                details.scroll + 10
            } else {
                last
            }) && shown == (DetailsModel { scroll: shown.scroll, selection: None, ..details })
                && same_choices(after, workspace)
            &&& up.active_workspace() matches Some(after) && after.details matches Some(shown)
                && shown.scroll == (if details.scroll - 10 > 0 {
                details.scroll - 10
            } else {
                0
            }) && shown == (DetailsModel { scroll: shown.scroll, selection: None, ..details })
                && same_choices(after, workspace)
            &&& same_surroundings(down, app)
            &&& same_surroundings(up, app)
        }),
        details.scroll < lines.len() - 1 ==> ({
            let down = app.invoked(Command::ScrollDetailsDown).0;
            down.active_workspace()->0.details->0.scroll > details.scroll
        }),
        details.scroll + 10 < lines.len() ==> ({
            let back = app.invoked(Command::ScrollDetailsDown).0.invoked(
                Command::ScrollDetailsUp,
            ).0;
            back.active_workspace() == Some(
                WorkspaceModel {
                    details: Some(DetailsModel { selection: None, ..details }),
                    ..workspace
                },
            )
        }),
{
    let last = lines.len() - 1;
    let low = (if details.scroll + 10 < last {
        details.scroll + 10
    } else {
        last
    }) as u16;
    let high = (if details.scroll - 10 > 0 {
        details.scroll - 10
    } else {
        0
    }) as u16;
    lemma_scrolled(app, Command::ScrollDetailsDown, 10, workspace, details, lines, low);
    lemma_scrolled(app, Command::ScrollDetailsUp, -10, workspace, details, lines, high);
    if details.scroll + 10 < lines.len() {
        let down = app.invoked(Command::ScrollDetailsDown).0;
        let moved = DetailsModel { scroll: low, selection: None, ..details };
        let lower = WorkspaceModel { details: Some(moved), ..workspace };
        lemma_same_reading(lower, workspace);
        lemma_scrolled(
            down,
            Command::ScrollDetailsUp,
            -10,
            lower,
            moved,
            lines,
            details.scroll,
        );
    }
}

/// Wherever loaded details stand, scrolling down ends ten lines on or at the
/// last line, and up ten lines back or at the first, inside the content.
pub proof fn law_scrolling_ends_inside_the_content(
    workspace: WorkspaceModel,
    details: DetailsModel,
    lines: Seq<Seq<char>>,
)
    requires
        workspace.details == Some(details),
        details.content == ContentModel::Ready(lines),
        0 < lines.len() <= 65536,
    ensures
        ({
            let down = workspace.with_details_scrolled(10).details->0.scroll;
            let up = workspace.with_details_scrolled(-10).details->0.scroll;
            &&& down < lines.len()
            &&& up < lines.len()
            &&& details.scroll + 10 < lines.len() ==> down == details.scroll + 10
            &&& details.scroll + 10 >= lines.len() ==> down == lines.len() - 1
            &&& details.scroll <= 10 ==> up == 0
            &&& 10 < details.scroll < lines.len() ==> up == details.scroll - 10
        }),
{
}

/// Details scroll by as many lines as they are told to, and stop at the first
/// and the last line.
pub proof fn law_details_scroll_line_by_line(
    workspace: WorkspaceModel,
    details: DetailsModel,
    lines: Seq<Seq<char>>,
    delta: int,
)
    requires
        workspace.details == Some(details),
        details.content == ContentModel::Ready(lines),
        0 < lines.len() <= 65536,
    ensures
        ({
            let shown = workspace.with_details_scrolled(delta).details->0;
            &&& workspace.with_details_scrolled(delta).details is Some
            &&& 0 <= details.scroll + delta < lines.len() ==> shown.scroll == details.scroll + delta
            &&& details.scroll + delta < 0 ==> shown.scroll == 0
            &&& details.scroll + delta >= lines.len() ==> shown.scroll == lines.len() - 1
            &&& shown == (DetailsModel { scroll: shown.scroll, ..details })
        }),
        same_choices(workspace.with_details_scrolled(delta), workspace),
{
}

/// Whether an application is another one with its Active Workspace and the
/// focus changed, whatever became of the details.
pub open spec fn shows(
    after: AppModel,
    before: AppModel,
    workspace: WorkspaceModel,
    pane: FocusedPane,
) -> bool {
    &&& after.active_workspace() matches Some(shown) && same_choices(shown, workspace)
    &&& same_surroundings(
        after,
        AppModel { state: StateModel { focused_pane: pane, ..before.state }, ..before },
    )
}

/// Whether a Workspace is ready with panels, and one of them, the first of its
/// identity, has one of its Resources selected.
pub open spec fn stands_at(
    workspace: WorkspaceModel,
    panels: Seq<PanelModel>,
    p: int,
    s: int,
) -> bool {
    &&& workspace.load_state == LoadModel::Ready(panels)
    &&& workspace.panel_navigation.len() == panels.len()
    &&& 0 <= p < panels.len()
    &&& forall|q: int|
        0 <= q < panels.len() ==> (#[trigger] workspace.panel_navigation[q]).panel_id
            == panels[q].id
    &&& forall|q: int| 0 <= q < p ==> (#[trigger] panels[q]).id != panels[p].id
    &&& 0 <= s < panels[p].resources.len()
    &&& workspace.panel_navigation[p] == picked(panels[p], s)
    &&& forall|r: int|
        0 <= r < s ==> (#[trigger] panels[p].resources[r]).id != panels[p].resources[s].id
}

/// A panel with one of its Resources selected.
pub open spec fn picked(panel: PanelModel, s: int) -> NavigationModel {
    NavigationModel {
        panel_id: panel.id,
        selected_resource: Some(panel.resources[s].id),
        selected_index: s,
    }
}

/// A Workspace with another Resource of a panel selected.
pub open spec fn with_pick(
    workspace: WorkspaceModel,
    panels: Seq<PanelModel>,
    p: int,
    s: int,
) -> WorkspaceModel {
    WorkspaceModel {
        panel_navigation: workspace.panel_navigation.update(p, picked(panels[p], s)),
        ..workspace
    }
}

pub(crate) proof fn lemma_stands(workspace: WorkspaceModel, panels: Seq<PanelModel>, p: int, s: int)
    requires
        stands_at(workspace, panels, p, s),
    ensures
        crate::text::first_position(panel_ids(panels), panels[p].id) == Some(p),
        crate::text::first_position(navigation_ids(workspace.panel_navigation), panels[p].id)
            == Some(p),
        crate::text::first_position(
            resource_ids(panels[p].resources),
            panels[p].resources[s].id,
        ) == Some(s),
{
    lemma_first_position_found(panel_ids(panels), panels[p].id, p);
    let ids = navigation_ids(workspace.panel_navigation);
    assert forall|q: int| 0 <= q < p implies ids[q] != panels[p].id by {
        assert(workspace.panel_navigation[q].panel_id == panels[q].id);
    }
    lemma_first_position_found(ids, panels[p].id, p);
    let resources = resource_ids(panels[p].resources);
    assert forall|r: int| 0 <= r < s implies resources[r] != panels[p].resources[s].id by {
        assert(panels[p].resources[r].id != panels[p].resources[s].id);
    }
    lemma_first_position_found(resources, panels[p].resources[s].id, s);
}

proof fn lemma_moved(
    workspace: WorkspaceModel,
    panels: Seq<PanelModel>,
    p: int,
    s: int,
    delta: int,
    t: int,
)
    requires
        stands_at(workspace, panels, p, s),
        t == (if s + delta < 0 {
            0
        } else if s + delta > panels[p].resources.len() - 1 {
            panels[p].resources.len() - 1
        } else {
            s + delta
        }),
    ensures
        same_choices(
            workspace.with_moved_selection(panels[p].id, delta),
            with_pick(workspace, panels, p, t),
        ),
{
    lemma_stands(workspace, panels, p, s);
}

/// The Commands that move the selection of the focused panel, each with its
/// step.
spec fn steps_by(command: Command, delta: int) -> bool {
    ||| command == Command::SelectNext && delta == 1
    ||| command == Command::SelectPrevious && delta == -1
    ||| command == Command::SelectNextFast && delta == 5
    ||| command == Command::SelectPreviousFast && delta == -5
}

proof fn lemma_selected(
    app: AppModel,
    command: Command,
    delta: int,
    workspace: WorkspaceModel,
    panels: Seq<PanelModel>,
    p: int,
    s: int,
    t: int,
)
    requires
        app.active_workspace() == Some(workspace),
        app.state.focused_pane == FocusedPane::Resources,
        stands_at(workspace, panels, p, s),
        workspace.focused_resource_panel == Some(panels[p].id),
        steps_by(command, delta),
        t == (if s + delta < 0 {
            0
        } else if s + delta > panels[p].resources.len() - 1 {
            panels[p].resources.len() - 1
        } else {
            s + delta
        }),
    ensures
        shows(
            app.invoked(command).0,
            app,
            with_pick(workspace, panels, p, t),
            FocusedPane::Resources,
        ),
{
    lemma_left(app, workspace, command);
    let left = app.selection_left(command);
    let quiet = unselected(workspace, command);
    let moved = quiet.with_focused_selection_moved(delta);
    lemma_moved(quiet, panels, p, s, delta, t);
    lemma_replaced(left, quiet, moved);
    reveal(AppModel::dispatched);
    reveal(AppModel::carried_out);
    reveal(AppModel::selected_by_focus);
    reveal(AppModel::selection_moved);
    assert(app.dispatched(command).0 == left.with_active(moved));
    lemma_followed(app.dispatched(command), moved);
}

/// In the Resource Panels the selection moves one row down or up, or five, and
/// stops at the last row and the first. No other panel is touched.
pub proof fn law_the_selection_moves_by_rows(
    app: AppModel,
    workspace: WorkspaceModel,
    panels: Seq<PanelModel>,
    p: int,
    s: int,
)
    requires
        app.active_workspace() == Some(workspace),
        app.state.focused_pane == FocusedPane::Resources,
        stands_at(workspace, panels, p, s),
        workspace.focused_resource_panel == Some(panels[p].id),
    ensures
        ({
            let last = panels[p].resources.len() - 1;
            let next = if s < last {
                s + 1
            } else {
                last
            };
            let previous = if s > 0 {
                s - 1
            } else {
                0
            };
            let next_fast = if s + 5 < last {
                s + 5
            } else {
                last
            };
            let previous_fast = if s > 5 {
                s - 5
            } else {
                0
            };
            let pane = FocusedPane::Resources;
            &&& shows(
                app.invoked(Command::SelectNext).0,
                app,
                with_pick(workspace, panels, p, next),
                pane,
            )
            &&& shows(
                app.invoked(Command::SelectPrevious).0,
                app,
                with_pick(workspace, panels, p, previous),
                pane,
            )
            &&& shows(
                app.invoked(Command::SelectNextFast).0,
                app,
                with_pick(workspace, panels, p, next_fast),
                pane,
            )
            &&& shows(
                app.invoked(Command::SelectPreviousFast).0,
                app,
                with_pick(workspace, panels, p, previous_fast),
                pane,
            )
        }),
{
    let last = panels[p].resources.len() - 1;
    let next = if s < last {
        s + 1
    } else {
        last
    };
    let previous = if s > 0 {
        s - 1
    } else {
        0
    };
    let next_fast = if s + 5 < last {
        s + 5
    } else {
        last
    };
    let previous_fast = if s > 5 {
        s - 5
    } else {
        0
    };
    lemma_selected(app, Command::SelectNext, 1, workspace, panels, p, s, next);
    lemma_selected(app, Command::SelectPrevious, -1, workspace, panels, p, s, previous);
    lemma_selected(app, Command::SelectNextFast, 5, workspace, panels, p, s, next_fast);
    lemma_selected(app, Command::SelectPreviousFast, -5, workspace, panels, p, s, previous_fast);
}

proof fn lemma_panel_scrolled(
    app: AppModel,
    command: Command,
    delta: int,
    workspace: WorkspaceModel,
    panels: Seq<PanelModel>,
    p: int,
    s: int,
    t: int,
)
    requires
        app.active_workspace() == Some(workspace),
        stands_at(workspace, panels, p, s),
        p <= usize::MAX,
        command == Command::ScrollResourcePanelDown(p as usize) && delta == 1 || command
            == Command::ScrollResourcePanelUp(p as usize) && delta == -1,
        t == (if s + delta < 0 {
            0
        } else if s + delta > panels[p].resources.len() - 1 {
            panels[p].resources.len() - 1
        } else {
            s + delta
        }),
    ensures
        shows(
            app.invoked(command).0,
            app,
            with_pick(workspace, panels, p, t),
            app.state.focused_pane,
        ),
{
    lemma_left(app, workspace, command);
    let left = app.selection_left(command);
    let quiet = unselected(workspace, command);
    let moved = quiet.with_selection_moved_at(p, delta);
    lemma_moved(quiet, panels, p, s, delta, t);
    lemma_replaced(left, quiet, moved);
    reveal(AppModel::dispatched);
    reveal(AppModel::carried_out);
    reveal(AppModel::panel_scrolled);
    assert(app.dispatched(command).0 == left.with_active(moved));
    lemma_followed(app.dispatched(command), moved);
}

/// Scrolling a panel moves its selection one row and leaves the focus where it
/// is.
pub proof fn law_a_panel_scrolls_row_by_row(
    app: AppModel,
    workspace: WorkspaceModel,
    panels: Seq<PanelModel>,
    p: int,
    s: int,
)
    requires
        app.active_workspace() == Some(workspace),
        stands_at(workspace, panels, p, s),
        p <= usize::MAX,
    ensures
        shows(
            app.invoked(Command::ScrollResourcePanelDown(p as usize)).0,
            app,
            with_pick(
                workspace,
                panels,
                p,
                if s + 1 < panels[p].resources.len() {
                    s + 1
                } else {
                    s
                },
            ),
            app.state.focused_pane,
        ),
        shows(
            app.invoked(Command::ScrollResourcePanelUp(p as usize)).0,
            app,
            with_pick(
                workspace,
                panels,
                p,
                if s > 0 {
                    s - 1
                } else {
                    s
                },
            ),
            app.state.focused_pane,
        ),
{
    let down = if s + 1 < panels[p].resources.len() {
        s + 1
    } else {
        s
    };
    let up = if s > 0 {
        s - 1
    } else {
        s
    };
    lemma_panel_scrolled(
        app,
        Command::ScrollResourcePanelDown(p as usize),
        1,
        workspace,
        panels,
        p,
        s,
        down,
    );
    lemma_panel_scrolled(
        app,
        Command::ScrollResourcePanelUp(p as usize),
        -1,
        workspace,
        panels,
        p,
        s,
        up,
    );
}

/// A tab while a panel declares it, and otherwise the Overview.
pub open spec fn tab_in(panel: PanelModel, tab: TabModel) -> TabModel {
    match tab {
        TabModel::View(id) => if exists|k: int|
            0 <= k < panel.detail_views.len() && (#[trigger] panel.detail_views[k]).id == id {
            tab
        } else {
            TabModel::Overview
        },
        TabModel::Overview => tab,
        TabModel::Shell => tab,
    }
}

/// A Workspace with one of its panels in focus.
pub open spec fn with_panel_focused(workspace: WorkspaceModel, panel: PanelModel) -> WorkspaceModel {
    WorkspaceModel {
        focused_resource_panel: Some(panel.id),
        selected_tab: tab_in(panel, workspace.selected_tab),
        ..workspace
    }
}

/// Whether a Workspace is ready with panels, one of them the first of its
/// identity.
pub open spec fn has_panel(workspace: WorkspaceModel, panels: Seq<PanelModel>, p: int) -> bool {
    &&& workspace.load_state == LoadModel::Ready(panels)
    &&& 0 <= p < panels.len() <= usize::MAX
    &&& forall|q: int| 0 <= q < p ==> (#[trigger] panels[q]).id != panels[p].id
}

proof fn lemma_focused(workspace: WorkspaceModel, panels: Seq<PanelModel>, p: int)
    requires
        has_panel(workspace, panels, p),
    ensures
        same_choices(
            workspace.with_focus(panels[p].id),
            with_panel_focused(workspace, panels[p]),
        ),
        crate::text::first_position(panel_ids(panels), panels[p].id) == Some(p),
{
    lemma_first_position_found(panel_ids(panels), panels[p].id, p);
    assert(panel_ids(panels)[p] == panels[p].id);
    assert(workspace.can_focus(panels[p].id));
    let ids = view_ids(panels[p].detail_views);
    if let TabModel::View(id) = workspace.selected_tab {
        if ids.contains(id) {
            let k = choose|k: int| 0 <= k < ids.len() && ids[k] == id;
            assert(panels[p].detail_views[k].id == id);
        }
        if exists|k: int|
            0 <= k < panels[p].detail_views.len() && (#[trigger] panels[p].detail_views[k]).id
                == id {
            let k = choose|k: int|
                0 <= k < panels[p].detail_views.len() && (#[trigger] panels[p].detail_views[k]).id
                    == id;
            assert(ids[k] == id);
        }
    }
}

pub(super) proof fn lemma_panel_focused(
    app: AppModel,
    workspace: WorkspaceModel,
    panels: Seq<PanelModel>,
    p: int,
)
    requires
        app.active_workspace() == Some(workspace),
        has_panel(workspace, panels, p),
    ensures
        ({
            let focused = app.panel_focused(p);
            &&& focused.active_workspace() matches Some(shown) && same_choices(
                shown,
                with_panel_focused(workspace, panels[p]),
            )
            &&& same_surroundings(
                focused,
                AppModel {
                    state: StateModel { focused_pane: FocusedPane::Resources, ..app.state },
                    ..app
                },
            )
        }),
{
    reveal(AppModel::panel_focused);
    lemma_focused(workspace, panels, p);
    lemma_replaced(app, workspace, workspace.with_focus(panels[p].id));
}

/// A Pane is focused by name: the providers, the Details, or a Resource Panel
/// by its position, which keeps the selection it had. A tab that the panel does
/// not declare gives way to the Overview.
pub proof fn law_panes_are_focused_by_name(
    app: AppModel,
    workspace: WorkspaceModel,
    panels: Seq<PanelModel>,
    p: int,
)
    requires
        app.active_workspace() == Some(workspace),
    ensures
        shows(app.invoked(Command::FocusProviders).0, app, workspace, FocusedPane::Providers),
        shows(app.invoked(Command::FocusDetails).0, app, workspace, FocusedPane::Details),
        has_panel(workspace, panels, p) ==> shows(
            app.invoked(Command::FocusResourcePanel(p as usize)).0,
            app,
            with_panel_focused(workspace, panels[p]),
            FocusedPane::Resources,
        ),
        workspace.load_state == LoadModel::Ready(panels) && panels.len() <= p <= usize::MAX ==> shows(
            app.invoked(Command::FocusResourcePanel(p as usize)).0,
            app,
            workspace,
            app.state.focused_pane,
        ),
{
    reveal(AppModel::dispatched);
    reveal(AppModel::carried_out);
    let providers = Command::FocusProviders;
    lemma_left(app, workspace, providers);
    lemma_followed(app.dispatched(providers), unselected(workspace, providers));
    let details = Command::FocusDetails;
    lemma_left(app, workspace, details);
    lemma_followed(app.dispatched(details), unselected(workspace, details));
    if 0 <= p <= usize::MAX {
        let command = Command::FocusResourcePanel(p as usize);
        lemma_left(app, workspace, command);
        let left = app.selection_left(command);
        let quiet = unselected(workspace, command);
        if has_panel(workspace, panels, p) {
            lemma_panel_focused(left, quiet, panels, p);
            lemma_followed(app.dispatched(command), left.panel_focused(p).active_workspace()->0);
        } else if workspace.load_state == LoadModel::Ready(panels) && panels.len() <= p {
            reveal(AppModel::panel_focused);
            lemma_followed(app.dispatched(command), quiet);
        }
    }
}

proof fn lemma_row_selected(
    workspace: WorkspaceModel,
    panels: Seq<PanelModel>,
    p: int,
    s: int,
    r: int,
)
    requires
        stands_at(workspace, panels, p, s),
        has_panel(workspace, panels, p),
        0 <= r < panels[p].resources.len(),
    ensures
        same_choices(
            workspace.with_focus(panels[p].id).with_resource_selected_at(r),
            with_pick(with_panel_focused(workspace, panels[p]), panels, p, r),
        ),
{
    lemma_stands(workspace, panels, p, s);
    lemma_focused(workspace, panels, p);
    let focused = workspace.with_focus(panels[p].id);
    assert(focused.focused_panel() == Some(panels[p]));
    assert(focused.panel_navigation == workspace.panel_navigation);
}

/// Selecting a Resource by the positions of its panel and of itself focuses the
/// panel and selects exactly that Resource there.
pub proof fn law_a_resource_is_selected_by_position(
    app: AppModel,
    workspace: WorkspaceModel,
    panels: Seq<PanelModel>,
    p: int,
    s: int,
    r: int,
)
    requires
        app.active_workspace() == Some(workspace),
        stands_at(workspace, panels, p, s),
        has_panel(workspace, panels, p),
        0 <= r < panels[p].resources.len() <= usize::MAX,
    ensures
        shows(
            app.invoked(Command::SelectResource { panel: p as usize, resource: r as usize }).0,
            app,
            with_pick(with_panel_focused(workspace, panels[p]), panels, p, r),
            FocusedPane::Resources,
        ),
{
    let command = Command::SelectResource { panel: p as usize, resource: r as usize };
    lemma_left(app, workspace, command);
    let left = app.selection_left(command);
    let quiet = unselected(workspace, command);
    lemma_row_selected(quiet, panels, p, s, r);
    let selected = quiet.with_focus(panels[p].id).with_resource_selected_at(r);
    lemma_replaced(left, quiet, selected);
    reveal(AppModel::dispatched);
    reveal(AppModel::carried_out);
    reveal(AppModel::resource_selected);
    lemma_followed(app.dispatched(command), selected);
}

/// A panel whose selected Resource is gone, or that has none selected, selects
/// its first when the selection is moved.
pub proof fn law_a_lost_selection_starts_at_the_top(
    entry: NavigationModel,
    panel: PanelModel,
    delta: int,
)
    requires
        entry.selected_resource matches Some(id) ==> forall|r: int|
            0 <= r < panel.resources.len() ==> (#[trigger] panel.resources[r]).id != id,
    ensures
        moved_navigation(entry, panel, delta) == (NavigationModel {
            panel_id: entry.panel_id,
            selected_resource: if panel.resources.len() > 0 {
                Some(panel.resources[0].id)
            } else {
                None
            },
            selected_index: 0,
        }),
{
    if let Some(id) = entry.selected_resource {
        let ids = resource_ids(panel.resources);
        assert forall|r: int| 0 <= r < ids.len() implies ids[r] != id by {
            assert(panel.resources[r].id != id);
        }
        lemma_first_position_none(ids, id);
    }
}

/// While the Details have the focus, moving the selection by one row moves
/// nothing.
pub proof fn law_the_details_select_no_rows(app: AppModel, workspace: WorkspaceModel)
    requires
        app.active_workspace() == Some(workspace),
        app.state.focused_pane == FocusedPane::Details,
    ensures
        shows(app.invoked(Command::SelectNext).0, app, workspace, FocusedPane::Details),
        shows(app.invoked(Command::SelectPrevious).0, app, workspace, FocusedPane::Details),
{
    reveal(AppModel::dispatched);
    reveal(AppModel::selected_by_focus);
    let next = Command::SelectNext;
    lemma_left(app, workspace, next);
    lemma_followed(app.dispatched(next), unselected(workspace, next));
    let previous = Command::SelectPrevious;
    lemma_left(app, workspace, previous);
    lemma_followed(app.dispatched(previous), unselected(workspace, previous));
}

} // verus!
