//! Where everything is on the screen, and that it is where it is drawn.

use vstd::arithmetic::div_mod::lemma_fundamental_div_mod_converse;
use vstd::prelude::*;

use super::drawing_laws::{
    has_focus, hint_at, is_drawn, is_ready_at, is_row_of, is_running,
    law_a_panel_shows_its_resources, lemma_panel_seen, panel_list, rows_inside, shows_panel,
    top_row,
};
use super::drawing::{LineModel, TextStyle};
use super::geometry::{
    all_weighted, covers, divides, end_of, extent, inside, one_grows, spans, start_of, total_wanted,
    weight_before, Constraint, Direction, Position, Rect,
};
use super::screen_layout::{
    active_view, arranged, chrome_borders, detail_constraints, drawn_panels, label_end,
    label_regions, label_start, panel_constraints, workspace_labels, DivisionsModel, PaneChrome,
    ResourceShellArea,
};
use crate::application::app::state::{FocusedPane, StateModel};
use crate::application::provider::PanelModel;
use crate::application::shell::ResourceShellPresentation;
use crate::application::workspace::model::WorkspaceModel;
use crate::application::workspace::view::PanelViewModel;

verus! {

/// How many of so many rows there is room for.
pub open spec fn room_for(height: int, count: int) -> int {
    if height < count {
        height
    } else {
        count
    }
}

/// The rows of a panel lie below its title one by one, as wide as the panel
/// inside its right border, and each stands for the next Resource from the top
/// row on. The selected Resource is among them wherever there is a row at all.
pub proof fn law_each_row_stands_for_a_resource(
    state: StateModel,
    area: Rect,
    divisions: DivisionsModel,
    workspace: WorkspaceModel,
    panels: Seq<PanelModel>,
    p: int,
)
    requires
        state.active_workspace() == Some(workspace),
        is_ready_at(workspace, panels, p),
        panels[p].resources.len() <= usize::MAX,
        p < divisions.panels.len(),
        divisions.panels[p].x + divisions.panels[p].width <= u16::MAX,
        divisions.panels[p].y + divisions.panels[p].height <= u16::MAX,
    ensures
        ({
            let region = divisions.panels[p];
            let layout = arranged(state, area, divisions);
            let rows = layout.panes->0.resource_rows[p];
            let selected = workspace.panel_navigation[p].selected_index;
            let count = panels[p].resources.len() as int;
            let top = top_row(selected, rows_inside(region), count);
            &&& layout.panes matches Some(panes) && panes.resource_panels == divisions.panels
            &&& rows.len() == room_for(rows_inside(region), count)
            &&& forall|i: int|
                0 <= i < rows.len() ==> (#[trigger] rows[i]).0 == top + i && rows[i].1 == (Rect {
                    x: region.x,
                    y: (region.y + 1 + i) as u16,
                    width: if region.width > 0 {
                        (region.width - 1) as u16
                    } else {
                        0
                    },
                    height: 1,
                })
            &&& rows.len() > 0 ==> 0 <= selected - top < rows.len() && rows[selected - top].0
                == selected
        }),
{
    reveal(arranged);
    lemma_panel_seen(workspace, panels, p);
    assert(drawn_panels(state) == workspace.presented()->Ready_0.panels);
    let layout = arranged(state, area, divisions);
    let rows = layout.panes->0.resource_rows[p];
    let region = divisions.panels[p];
    assert(rows == super::screen_layout::panel_rows(drawn_panels(state)[p], region));
}

/// Whether a row is highlighted.
pub open spec fn is_highlighted(row: LineModel, focused: bool) -> bool {
    row.style == (if focused {
        TextStyle { fg: None, bg: Some(super::drawing::Color::Blue), bold: false }
    } else {
        TextStyle { fg: None, bg: Some(super::drawing::Color::DarkGray), bold: false }
    })
}

/// What is drawn in the row of a Resource is that Resource: as many rows are
/// drawn as there are regions for, each names the Resource that its region
/// stands for, and the row of the selected one is there and highlighted.
pub proof fn law_a_row_shows_the_resource_it_stands_for(
    state: StateModel,
    area: Rect,
    divisions: DivisionsModel,
    workspace: WorkspaceModel,
    panels: Seq<PanelModel>,
    p: int,
)
    requires
        state.active_workspace() == Some(workspace),
        is_ready_at(workspace, panels, p),
        panels[p].resources.len() <= usize::MAX,
        workspace.panel_navigation[p].selected_resource == Some(
            panels[p].resources[workspace.panel_navigation[p].selected_index].id,
        ),
        p < divisions.panels.len(),
        divisions.panels[p].height > 2,
        panels[p].resources.len() > 0,
        divisions.panels[p].x + divisions.panels[p].width <= u16::MAX,
        divisions.panels[p].y + divisions.panels[p].height <= u16::MAX,
    ensures
        ({
            let layout = arranged(state, area, divisions);
            let rows = layout.panes->0.resource_rows[p];
            let selected = workspace.panel_navigation[p].selected_index;
            let focused = has_focus(state, workspace, panels[p]);
            exists|items: Seq<LineModel>|
                {
                    &&& #[trigger] is_drawn(
                        state,
                        layout,
                        area,
                        panel_list(
                            divisions.panels[p],
                            hint_at(state.hints.focus_resource_panels, p),
                            panels[p],
                            focused,
                            items,
                        ),
                    )
                    &&& items.len() == rows.len()
                    &&& forall|i: int|
                        0 <= i < items.len() ==> (#[trigger] items[i]).spans[2].text
                            == panels[p].resources[rows[i].0 as int].name
                    &&& exists|i: int|
                        0 <= i < items.len() && rows[i].0 == selected && is_highlighted(
                            #[trigger] items[i],
                            focused,
                        )
                }
        }),
{
    let layout = arranged(state, area, divisions);
    law_each_row_stands_for_a_resource(state, area, divisions, workspace, panels, p);
    let panes = layout.panes->0;
    let region = divisions.panels[p];
    let focused = has_focus(state, workspace, panels[p]);
    let key = hint_at(state.hints.focus_resource_panels, p);
    let entry = workspace.panel_navigation[p];
    law_a_panel_shows_its_resources(state, layout, panes, area, workspace, panels, p);
    let items = choose|items: Seq<LineModel>|
        {
            &&& #[trigger] is_drawn(
                state,
                layout,
                area,
                panel_list(region, key, panels[p], focused, items),
            )
            &&& shows_panel(
                items,
                panels[p],
                entry,
                workspace.provider.id,
                state.running_commands,
                focused,
                rows_inside(region),
            )
        };
    let rows = panes.resource_rows[p];
    let count = panels[p].resources.len() as int;
    let top = top_row(entry.selected_index, rows_inside(region), count);
    assert forall|i: int| 0 <= i < items.len() implies (#[trigger] items[i]).spans[2].text
        == panels[p].resources[rows[i].0 as int].name by {
        let resource = panels[p].resources[top + i];
        assert(rows[i].0 == top + i);
        assert(is_row_of(
            items[i],
            resource,
            is_running(state.running_commands, workspace.provider.id, panels[p].id, resource.id),
            entry.selected_resource == Some(resource.id),
            focused,
        ));
    }
    let at = entry.selected_index - top;
    let resource = panels[p].resources[top + at];
    assert(is_row_of(
        items[at],
        resource,
        is_running(state.running_commands, workspace.provider.id, panels[p].id, resource.id),
        entry.selected_resource == Some(resource.id),
        focused,
    ));
    assert(is_highlighted(items[at], focused));
    assert(is_drawn(state, layout, area, panel_list(region, key, panels[p], focused, items)));
}

/// Whether regions lie in a row one after another, each as wide as its label,
/// with a gap between them.
pub open spec fn lie_in_a_row(
    regions: Seq<Rect>,
    labels: Seq<Seq<char>>,
    x: int,
    y: u16,
    gap: int,
) -> bool {
    &&& regions.len() == labels.len()
    &&& forall|i: int|
        0 <= i < regions.len() ==> (#[trigger] regions[i]).width == labels[i].len()
            && regions[i].height == 1 && regions[i].y == y
    &&& regions.len() > 0 ==> regions[0].x == x
    &&& forall|i: int|
        0 < i < regions.len() ==> (#[trigger] regions[i]).x == regions[i - 1].x + regions[i
            - 1].width + gap
}

/// The columns that labels and the gaps behind them take.
pub open spec fn row_length(labels: Seq<Seq<char>>, gap: int, count: int) -> int
    decreases count,
{
    if count <= 0 {
        0
    } else {
        row_length(labels, gap, count - 1) + labels[count - 1].len() + gap
    }
}

proof fn lemma_row_grows(labels: Seq<Seq<char>>, gap: int, count: int, whole: int)
    requires
        0 <= count <= whole <= labels.len(),
        0 <= gap,
    ensures
        0 <= row_length(labels, gap, count) <= row_length(labels, gap, whole),
    decreases whole,
{
    if whole > 0 {
        if count == whole {
            lemma_row_grows(labels, gap, count - 1, whole - 1);
        } else {
            lemma_row_grows(labels, gap, count, whole - 1);
        }
    }
}

proof fn lemma_label_start(labels: Seq<Seq<char>>, x: u16, gap: u16, index: int)
    requires
        0 <= index <= labels.len(),
        x + row_length(labels, gap as int, index) <= u16::MAX,
    ensures
        index < labels.len() || index > 0 ==> label_start(labels, x, gap, index) == x + row_length(
            labels,
            gap as int,
            index,
        ),
        index > 0 ==> label_end(labels, x, gap, index) == x + row_length(labels, gap as int, index)
            - gap,
    decreases index,
{
    if index > 0 {
        lemma_row_grows(labels, gap as int, index - 1, index);
        lemma_label_start(labels, x, gap, index - 1);
    }
}

pub(super) proof fn lemma_labels_lie(labels: Seq<Seq<char>>, x: u16, y: u16, gap: u16)
    requires
        x + row_length(labels, gap as int, labels.len() as int) <= u16::MAX,
        y < u16::MAX,
    ensures
        lie_in_a_row(label_regions(labels, x, y, gap), labels, x as int, y, gap as int),
{
    let regions = label_regions(labels, x, y, gap);
    assert forall|i: int| 0 <= i < regions.len() implies (#[trigger] regions[i]).width
        == labels[i].len() && regions[i].height == 1 && regions[i].y == y && regions[i].x == x
        + row_length(labels, gap as int, i) by {
        lemma_row_grows(labels, gap as int, i, labels.len() as int);
        lemma_row_grows(labels, gap as int, i + 1, labels.len() as int);
        lemma_label_start(labels, x, gap, i);
    }
    assert forall|i: int| 0 < i < regions.len() implies (#[trigger] regions[i]).x == regions[i
        - 1].x + regions[i - 1].width + gap by {
        assert(regions[i - 1].x == x + row_length(labels, gap as int, i - 1));
    }
}

/// What the provider bar names a Workspace by: the active one in brackets, with
/// its Target Environment where it has one.
pub open spec fn bar_label(workspace: WorkspaceModel, active: bool) -> Seq<char> {
    if !active {
        workspace.provider.name
    } else {
        match workspace.provider.target_environment {
            Some(target) => "[ "@ + workspace.provider.name + " · "@ + target + " ]"@,
            None => "[ "@ + workspace.provider.name + " ]"@,
        }
    }
}

/// The Providers Pane label: its key in brackets, and a mark where it has the
/// focus.
pub open spec fn providers_label(state: StateModel) -> Seq<char> {
    (if state.focused_pane == FocusedPane::Providers {
        "▶ "@
    } else {
        Seq::empty()
    }) + (match state.hints.focus_providers {
        Some(key) => "["@ + key + "] Providers"@,
        None => "Providers"@,
    })
}

/// Every Workspace by its label.
pub open spec fn bar_labels(state: StateModel) -> Seq<Seq<char>> {
    Seq::new(
        state.providers.len(),
        |i: int| bar_label(state.providers[i], state.active_provider == Some(i as usize)),
    )
}

/// The provider bar has room for its own label and two columns first, then for
/// the label of every Workspace, three columns apart, and what is left is for
/// the Target Environment.
pub proof fn law_the_bar_has_room_for_its_labels(
    state: StateModel,
    area: Rect,
    divisions: DivisionsModel,
)
    requires
        ({
            let bar = divisions.bands[0];
            &&& bar.y < u16::MAX
            &&& bar.x + bar.width <= u16::MAX
            &&& bar.x + providers_label(state).len() + 2 + row_length(
                bar_labels(state),
                3,
                state.providers.len() as int,
            ) <= u16::MAX
        }),
    ensures
        ({
            let bar = divisions.bands[0];
            let layout = arranged(state, area, divisions);
            let start = bar.x + providers_label(state).len() + 2;
            let end = if state.providers.len() == 0 {
                start as int
            } else {
                start + row_length(bar_labels(state), 3, state.providers.len() as int) - 3
            };
            &&& layout.provider_bar == bar
            &&& layout.workspace == divisions.bands[1]
            &&& layout.status == divisions.bands[2]
            &&& layout.provider_selector == (Rect {
                x: bar.x,
                y: bar.y,
                width: (providers_label(state).len() + 2) as u16,
                height: 1,
            })
            &&& lie_in_a_row(
                layout.provider_workspaces,
                bar_labels(state),
                start as int,
                bar.y,
                3,
            )
            &&& layout.active_target == (if state.active_workspace() matches Some(workspace)
                && workspace.provider.target_environment is Some && end < bar.x + bar.width {
                Some(
                    Rect {
                        x: end as u16,
                        y: bar.y,
                        width: (bar.x + bar.width - end) as u16,
                        height: 1,
                    },
                )
            } else {
                None
            })
        }),
{
    reveal(arranged);
    let bar = divisions.bands[0];
    let labels = workspace_labels(state);
    assert(labels =~= bar_labels(state));
    assert(super::screen_layout::selector_label(state) =~= providers_label(state));
    let n = labels.len() as int;
    lemma_row_grows(labels, 3, 0, n);
    let start = (bar.x + providers_label(state).len() + 2) as u16;
    assert(super::screen_layout::workspaces_start(state, bar) == start);
    lemma_labels_lie(labels, start, bar.y, 3);
    lemma_label_start(labels, start, 3, n);
}

/// The label of a tab: in brackets where it is the selected one.
pub open spec fn tab_text(title: Seq<char>, selected: bool) -> Seq<char> {
    if selected {
        "[ "@ + title + " ]"@
    } else {
        title
    }
}

/// The Panes of the Active Workspace are where its columns are: the Resource
/// Panels in the left one, the Details in the right one, and the Pane Boundary
/// can be taken hold of by the last column of the one and the first of the
/// other.
pub proof fn law_the_panes_are_where_the_columns_are(
    state: StateModel,
    area: Rect,
    divisions: DivisionsModel,
)
    requires
        state.active_workspace() is Some,
        0 < divisions.columns[0].width,
        divisions.columns[0].x + divisions.columns[0].width < u16::MAX,
        divisions.columns[0].y + divisions.columns[0].height <= u16::MAX,
    ensures
        ({
            let left = divisions.columns[0];
            arranged(state, area, divisions).panes matches Some(panes) && panes.resources == left
                && panes.details == divisions.columns[1] && panes.detail_content
                == divisions.details[1] && panes.resource_panels == divisions.panels
                && panes.pane_boundary == (Rect {
                x: (left.x + left.width - 1) as u16,
                y: left.y,
                width: 2,
                height: left.height,
            })
        }),
        state.active_workspace() is None ==> arranged(state, area, divisions).panes is None,
{
    reveal(arranged);
}

/// A visible Resource Shell Session is drawn where the Details are, or inside a
/// border over the whole Workspace.
pub proof fn law_a_session_is_where_it_was_put(
    state: StateModel,
    area: Rect,
    divisions: DivisionsModel,
)
    requires
        divisions.bands[1].width >= 2,
        divisions.bands[1].height >= 2,
        divisions.bands[1].x + divisions.bands[1].width <= u16::MAX,
        divisions.bands[1].y + divisions.bands[1].height <= u16::MAX,
    ensures
        ({
            let whole = divisions.bands[1];
            let shell = arranged(state, area, divisions).resource_shell;
            &&& state.visible_session() is None ==> shell is None
            &&& state.visible_session() is Some && state.resource_shell_presentation
                == ResourceShellPresentation::Details ==> shell == Some(
                ResourceShellArea { area: divisions.columns[1], terminal: divisions.details[1] },
            )
            &&& state.visible_session() is Some && state.resource_shell_presentation
                == ResourceShellPresentation::Enlarged ==> shell == Some(
                ResourceShellArea {
                    area: whole,
                    terminal: Rect {
                        x: (whole.x + 1) as u16,
                        y: (whole.y + 1) as u16,
                        width: (whole.width - 2) as u16,
                        height: (whole.height - 2) as u16,
                    },
                },
            )
        }),
{
    reveal(arranged);
}

/// A region of a size in the middle of another, or as much of it as there is.
pub open spec fn in_the_middle(region: Rect, width: int, height: int, area: Rect) -> bool {
    &&& region.width == (if width < area.width {
        width
    } else {
        area.width as int
    })
    &&& region.height == (if height < area.height {
        height
    } else {
        area.height as int
    })
    &&& region.x == area.x + (area.width - region.width) / 2
    &&& region.y == area.y + (area.height - region.height) / 2
}

/// The topmost modal owns the screen: a question sixty-four by five, a failure
/// as wide as its message and two columns on either side, help forty-two wide
/// with a row for every Command. They stand in the middle.
pub proof fn law_the_topmost_modal_stands_in_the_middle(
    state: StateModel,
    area: Rect,
    divisions: DivisionsModel,
)
    requires
        area.x + area.width <= u16::MAX,
        area.y + area.height <= u16::MAX,
    ensures
        ({
            let overlay = arranged(state, area, divisions).overlay;
            if state.confirmation is Some {
                overlay matches Some(region) && in_the_middle(region, 64, 5, area)
            } else {
                match state.command_error {
                    Some(error) => error.len() + 4 <= area.width ==> (overlay matches Some(region)
                        && in_the_middle(
                        region,
                        error.len() as int + 4,
                        if error.len() == 0 {
                            3
                        } else {
                            4
                        },
                        area,
                    )),
                    None => match state.help_overlay {
                        Some(help) => help.entries.len() < 65534 ==> (overlay matches Some(region)
                            && in_the_middle(
                            region,
                            42,
                            if help.entries.len() < 2 {
                                4
                            } else {
                                help.entries.len() as int + 2
                            },
                            area,
                        )),
                        None => overlay is None,
                    },
                }
            }
        }),
{
    reveal(arranged);
    if state.confirmation is None {
        if let Some(error) = state.command_error {
            if error.len() + 4 <= area.width {
                let message = error.len() as int;
                let row = message + 2;
                assert((message + row - 1) / row == (if message == 0 {
                    0int
                } else {
                    1
                })) by (nonlinear_arith)
                    requires
                        0 <= message,
                        row == message + 2,
                ;
            }
        }
    }
}

/// How many rows panels have to show, an empty one counted as one.
pub open spec fn rows_wanted(panels: Seq<PanelViewModel>, count: int) -> int
    decreases count,
{
    if count <= 0 {
        0
    } else {
        rows_wanted(panels, count - 1) + (if panels[count - 1].panel.resources.len() == 0 {
            1
        } else {
            panels[count - 1].panel.resources.len() as int
        })
    }
}

proof fn lemma_weights(panels: Seq<PanelViewModel>, count: int)
    requires
        0 <= count <= panels.len(),
        forall|i: int|
            0 <= i < panels.len() ==> (#[trigger] panels[i]).panel.resources.len() <= u16::MAX,
    ensures
        weight_before(panel_constraints(panels), count) == rows_wanted(panels, count),
    decreases count,
{
    if count > 0 {
        lemma_weights(panels, count - 1);
        assert(panels[count - 1].panel.resources.len() <= u16::MAX);
    }
}

/// The Resource Panels share their column in proportion to what each has to
/// show, to the nearest row.
pub proof fn law_the_panels_share_their_column(
    divisions: DivisionsModel,
    state: StateModel,
    area: Rect,
    i: int,
)
    requires
        divisions.fits(state, area),
        0 <= i < drawn_panels(state).len() <= 9,
        forall|j: int|
            0 <= j < drawn_panels(state).len() ==> (#[trigger] drawn_panels(
                state,
            )[j]).panel.resources.len() <= u16::MAX,
        divisions.columns[0].y + divisions.columns[0].height <= u16::MAX,
    ensures
        ({
            let column = divisions.columns[0];
            let panels = drawn_panels(state);
            let whole = rows_wanted(panels, panels.len() as int);
            let part = divisions.panels[i];
            let end = part.y + part.height - column.y;
            &&& part.x == column.x
            &&& part.width == column.width
            &&& -51 * whole <= 100 * (end * whole - column.height * rows_wanted(panels, i + 1))
                <= 51 * whole
        }),
{
    reveal(DivisionsModel::fits);
    let panels = drawn_panels(state);
    let constraints = panel_constraints(panels);
    lemma_weights(panels, i + 1);
    lemma_weights(panels, panels.len() as int);
    assert forall|j: int| 0 <= j < constraints.len() implies (#[trigger] constraints[j] matches
        Constraint::Fill(weight) && weight > 0) by {
        assert(panels[j].panel.resources.len() <= u16::MAX);
    }
    assert(all_weighted(constraints));
    let part = divisions.panels[i];
    assert(spans(part, Direction::Vertical, divisions.columns[0]));
    assert(end_of(part, Direction::Vertical) == part.y + part.height);
}

/// Inside the Details the tabs have a row where there are any, and what the
/// selected one shows has the rest.
pub proof fn law_the_tabs_have_a_row(divisions: DivisionsModel, state: StateModel, area: Rect)
    requires
        divisions.fits(state, area),
        divisions.columns[1].width > 0,
        divisions.columns[1].height >= 3,
        divisions.columns[1].x + divisions.columns[1].width <= u16::MAX,
        divisions.columns[1].y + divisions.columns[1].height <= u16::MAX,
    ensures
        ({
            let pane = divisions.columns[1];
            let tabs: int = if active_view(state) matches Some(view)
                && view.selected_resource is Some {
                1
            } else {
                0
            };
            &&& divisions.details[0] == (Rect {
                x: (pane.x + 1) as u16,
                y: (pane.y + 1) as u16,
                width: (pane.width - 1) as u16,
                height: tabs as u16,
            })
            &&& divisions.details[1] == (Rect {
                x: (pane.x + 1) as u16,
                y: (pane.y + 1 + tabs) as u16,
                width: (pane.width - 1) as u16,
                height: (pane.height - 2 - tabs) as u16,
            })
        }),
{
    reveal(DivisionsModel::fits);
    let tabs = super::screen_layout::has_tabs(state);
    let constraints = detail_constraints(tabs);
    let inner = inside(divisions.columns[1], chrome_borders(PaneChrome::Details));
    reveal_with_fuel(total_wanted, 3);
    assert(constraints.drop_last() =~= seq![constraints[0]]);
    assert(constraints.drop_last().drop_last() =~= Seq::<Constraint>::empty());
    assert(one_grows(constraints, 1));
    let parts = divisions.details;
    assert(divides(parts, Direction::Vertical, constraints, inner));
    assert(extent(parts[0], Direction::Vertical) == constraints[0]->Length_0);
    assert(spans(parts[0], Direction::Vertical, inner));
    assert(spans(parts[1], Direction::Vertical, inner));
    assert(start_of(parts[1], Direction::Vertical) == end_of(parts[0], Direction::Vertical));
}

/// A rectangle covers the columns from its own on and the rows from its own on,
/// as many as it is wide and high.
pub proof fn law_a_rectangle_covers_its_columns_and_rows(area: Rect, x: u16, y: u16)
    requires
        area.x + area.width <= u16::MAX,
        area.y + area.height <= u16::MAX,
    ensures
        covers(area, Position { x, y }) <==> area.x <= x < area.x + area.width && area.y <= y
            < area.y + area.height,
{
}

/// A failure too long for the screen is as wide as the screen and as high as
/// its message takes inside the frame, with a row for how to put it away.
pub proof fn law_a_long_failure_is_wrapped(
    state: StateModel,
    area: Rect,
    divisions: DivisionsModel,
    error: Seq<char>,
    lines: int,
)
    requires
        state.confirmation is None,
        state.command_error == Some(error),
        area.x + area.width <= u16::MAX,
        area.y + area.height <= u16::MAX,
        2 < area.width < error.len() + 4,
        error.len() < 65000,
        0 < lines,
        (lines - 1) * (area.width - 2) < error.len() <= lines * (area.width - 2),
    ensures
        arranged(state, area, divisions).overlay matches Some(region) && in_the_middle(
            region,
            area.width as int,
            lines + 3,
            area,
        ),
{
    reveal(arranged);
    let row = area.width - 2;
    let len = error.len() as int;
    assert((len + row - 1) / row == lines) by {
        let rest = len + row - 1 - lines * row;
        assert(0 <= rest < row) by (nonlinear_arith)
            requires
                rest == len + row - 1 - lines * row,
                (lines - 1) * row < len <= lines * row,
        ;
        lemma_fundamental_div_mod_converse(len + row - 1, row, lines, rest);
    }
    assert(lines <= len) by (nonlinear_arith)
        requires
            (lines - 1) * row < len,
            1 <= row,
            0 < lines,
    ;
}

} // verus!
