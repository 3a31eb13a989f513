//! What the provider bar, the Details Pane and the modals say.

use vstd::prelude::*;

use super::drawing::{Alignment, Color, DrawingModel, FrameModel, LineModel, TextStyle, WidgetModel};
use super::drawing_laws::{
    hint_at, ink, is_drawn, is_ready_at, is_running, lemma_active_is_drawn, lemma_behind,
    lemma_in_front, lemma_panel_seen, lemma_panels_hold_panel, lemma_running,
    lemma_workspace_is_drawn, lines_in, marked, no_ink, pane_ink, strong, text_line, titled,
    top_row, words,
};
use super::geometry::{Borders, Rect};
use super::layout_laws::{
    bar_label, lemma_labels_lie, lie_in_a_row, providers_label, row_length, tab_text,
};
use super::render::{
    bar_drawings, confirmation_drawings, confirmation_lines, content_lines, details_drawings,
    error_drawings, help_drawings, help_lines, loaded_lines, overview_lines, panel_drawings,
    panel_hint, panels_drawings, placed_panels, provider_drawings, running_here, screen_drawings,
    tab_drawings, workspace_drawings,
};
use super::screen_layout::{
    arranged, confirmation_region, error_region, first_visible, help_region, tab_labels,
    DivisionsModel, LayoutModel, PanesModel,
};
use crate::application::app::command_laws::lemma_stands;
use crate::application::app::ring_laws::{inspects, tab_at, tab_count};
use crate::application::app::state::{
    FocusedPane, HelpModel, InvocationModel, RunningModel, StateModel,
};
use crate::application::command::ResourceCommand;
use crate::application::provider::{view_ids, PanelModel, ResourceModel};
use crate::application::workspace::model::{ContentModel, DetailsModel, LoadModel, WorkspaceModel};
use crate::application::workspace::view::{PresentationModel, WorkspaceViewModel};
use crate::application::workspace::{DetailPosition, DetailSelection};
use crate::domain::{ResourceState, TargetModel};
use crate::text::{is_blank, lemma_first_position_found};

verus! {

/// A label in a region of its own.
pub open spec fn label_in(area: Rect, text: Seq<char>, style: TextStyle) -> DrawingModel {
    lines_in(area, seq![LineModel { spans: seq![words(text, style)], style: no_ink() }], false)
}

/// Lines in a frame.
pub open spec fn lines_framed(
    area: Rect,
    lines: Seq<LineModel>,
    frame: FrameModel,
    wrap: bool,
) -> DrawingModel {
    DrawingModel {
        area,
        widget: WidgetModel::Paragraph {
            lines,
            frame: Some(frame),
            wrap,
            alignment: Alignment::Left,
            style: no_ink(),
        },
    }
}

proof fn lemma_bar_is_drawn(state: StateModel, layout: LayoutModel, area: Rect, drawing: DrawingModel)
    requires
        bar_drawings(state, layout).contains(drawing),
    ensures
        is_drawn(state, layout, area, drawing),
{
    let bar = bar_drawings(state, layout);
    let i = choose|i: int| 0 <= i < bar.len() && bar[i] == drawing;
    assert(screen_drawings(state, layout, area)[i] == drawing);
}

/// The provider bar names every Workspace in its region, the active one set
/// off; before any was discovered, it names itself.
pub proof fn law_the_bar_names_the_workspaces(
    state: StateModel,
    layout: LayoutModel,
    area: Rect,
    i: int,
)
    ensures
        0 <= i < state.providers.len() && i < layout.provider_workspaces.len() ==> is_drawn(
            state,
            layout,
            area,
            label_in(
                layout.provider_workspaces[i],
                bar_label(state.providers[i], state.active_provider == Some(i as usize)),
                if state.active_provider == Some(i as usize) {
                    marked()
                } else {
                    ink(Color::DarkGray)
                },
            ),
        ),
        state.providers.len() == 0 ==> is_drawn(
            state,
            layout,
            area,
            label_in(
                layout.provider_bar,
                providers_label(state),
                pane_ink(state.focused_pane == FocusedPane::Providers),
            ),
        ),
{
    let bar = bar_drawings(state, layout);
    if 0 <= i < state.providers.len() && i < layout.provider_workspaces.len() {
        let named = provider_drawings(state, layout.provider_workspaces);
        assert(bar[i] == named[i]);
        assert(bar.contains(named[i]));
        lemma_bar_is_drawn(state, layout, area, named[i]);
    }
    if state.providers.len() == 0 {
        assert(super::screen_layout::selector_label(state) =~= providers_label(state));
        assert(bar.contains(bar[0]));
        lemma_bar_is_drawn(state, layout, area, bar[0]);
    }
}

/// The active Target Environment is named at the right end of the provider bar.
pub proof fn law_the_bar_names_the_target(
    state: StateModel,
    layout: LayoutModel,
    area: Rect,
    workspace: WorkspaceModel,
    target: Seq<char>,
    region: Rect,
)
    requires
        state.active_workspace() == Some(workspace),
        workspace.provider.target_environment == Some(target),
        layout.active_target == Some(region),
    ensures
        is_drawn(
            state,
            layout,
            area,
            DrawingModel {
                area: region,
                widget: WidgetModel::Paragraph {
                    lines: seq![
                        LineModel {
                            spans: seq![words(target, ink(Color::DarkGray))],
                            style: no_ink(),
                        },
                    ],
                    frame: None,
                    wrap: false,
                    alignment: Alignment::Right,
                    style: no_ink(),
                },
            },
        ),
{
    let bar = bar_drawings(state, layout);
    let last = bar[bar.len() - 1];
    assert(bar.contains(last));
    lemma_bar_is_drawn(state, layout, area, last);
}

/// Before any Provider was discovered the screen says so.
pub proof fn law_an_empty_screen_says_so(state: StateModel, layout: LayoutModel, area: Rect)
    requires
        state.active_workspace() is None,
    ensures
        is_drawn(
            state,
            layout,
            area,
            lines_framed(
                layout.workspace,
                seq![text_line("No providers discovered"@, no_ink())],
                FrameModel {
                    title: " Workspace "@,
                    borders: Borders { left: true, right: true, top: true, bottom: true },
                    accent: no_ink(),
                    surface: no_ink(),
                },
                false,
            ),
        ),
{
    let all = screen_drawings(state, layout, area);
    let n = bar_drawings(state, layout).len() as int;
    assert(all.contains(all[n + 1]));
}

/// The Resource Panels' place says that the Workspace is being refreshed, that
/// it is unavailable and why, or that it has no panels.
pub proof fn law_a_workspace_without_panels_says_why(
    state: StateModel,
    layout: LayoutModel,
    panes: PanesModel,
    area: Rect,
    workspace: WorkspaceModel,
)
    requires
        state.active_workspace() == Some(workspace),
        layout.panes == Some(panes),
    ensures
        ({
            let focused = state.focused_pane == FocusedPane::Resources;
            let key = hint_at(state.hints.focus_resource_panels, 0);
            let full = Borders { left: true, right: true, top: true, bottom: true };
            match workspace.load_state {
                LoadModel::Loading => is_drawn(
                    state,
                    layout,
                    area,
                    lines_framed(
                        panes.resources,
                        seq![text_line("Refreshing…"@, no_ink())],
                        FrameModel {
                            title: titled(key, "Resources"@, focused),
                            borders: full,
                            accent: pane_ink(focused),
                            surface: no_ink(),
                        },
                        false,
                    ),
                ),
                LoadModel::Error(message) => is_drawn(
                    state,
                    layout,
                    area,
                    lines_framed(
                        panes.resources,
                        seq![
                            text_line(
                                workspace.provider.name + " provider is unavailable"@,
                                strong(Color::Red),
                            ),
                            text_line(message, no_ink()),
                        ],
                        FrameModel {
                            title: titled(key, "Error"@, focused),
                            borders: full,
                            accent: pane_ink(focused),
                            surface: no_ink(),
                        },
                        true,
                    ),
                ),
                LoadModel::Ready(panels) => panels.len() == 0 ==> is_drawn(
                    state,
                    layout,
                    area,
                    lines_framed(
                        panes.resources,
                        seq![text_line("No Resource Panels available"@, no_ink())],
                        FrameModel {
                            title: titled(key, "Resources"@, focused),
                            borders: Borders { left: false, right: true, top: true, bottom: true },
                            accent: pane_ink(focused),
                            surface: no_ink(),
                        },
                        false,
                    ),
                ),
            }
        }),
{
    let drawings = workspace_drawings(
        workspace.presented(),
        state.focused_pane == FocusedPane::Resources,
        state.hints.focus_resource_panels,
        state.running_commands,
        panes,
    );
    let shown = match workspace.load_state {
        LoadModel::Ready(panels) => panels.len() == 0,
        _ => true,
    };
    if shown {
        assert(drawings.contains(drawings[0]));
        lemma_workspace_is_drawn(state, layout, panes, area, workspace, drawings[0]);
    }
}

/// What the Details Pane of a Workspace draws.
spec fn pane_drawings(
    state: StateModel,
    workspace: WorkspaceModel,
    panes: PanesModel,
) -> Seq<DrawingModel> {
    details_drawings(
        workspace.provider.name,
        match workspace.presented() {
            PresentationModel::Ready(view) => Some(view),
            _ => None,
        },
        state.running_commands,
        state.focused_pane == FocusedPane::Details,
        state.hints.focus_details,
        panes,
    )
}

proof fn lemma_details_are_drawn(
    state: StateModel,
    layout: LayoutModel,
    panes: PanesModel,
    area: Rect,
    workspace: WorkspaceModel,
    drawing: DrawingModel,
)
    requires
        state.active_workspace() == Some(workspace),
        layout.panes == Some(panes),
        pane_drawings(state, workspace, panes).contains(drawing),
    ensures
        is_drawn(state, layout, area, drawing),
{
    let first = workspace_drawings(
        workspace.presented(),
        state.focused_pane == FocusedPane::Resources,
        state.hints.focus_resource_panels,
        state.running_commands,
        panes,
    );
    let second = pane_drawings(state, workspace, panes);
    let help = help_drawings(state, area);
    let error = error_drawings(state, area);
    lemma_behind(first, second, drawing);
    lemma_in_front(first + second, help, drawing);
    lemma_in_front(first + second + help, error, drawing);
    lemma_in_front(
        first + second + help + error,
        confirmation_drawings(state, area),
        drawing,
    );
    lemma_active_is_drawn(state, layout, panes, area, workspace, drawing);
}

/// The Details Pane is framed under its title, and says where there is nothing
/// to show in it.
pub proof fn law_the_details_are_framed(
    state: StateModel,
    layout: LayoutModel,
    panes: PanesModel,
    area: Rect,
    workspace: WorkspaceModel,
)
    requires
        state.active_workspace() == Some(workspace),
        layout.panes == Some(panes),
    ensures
        ({
            let focused = state.focused_pane == FocusedPane::Details;
            &&& is_drawn(
                state,
                layout,
                area,
                DrawingModel {
                    area: panes.details,
                    widget: WidgetModel::Frame(
                        FrameModel {
                            title: titled(state.hints.focus_details, "Details"@, focused),
                            borders: Borders { left: true, right: false, top: true, bottom: true },
                            accent: pane_ink(focused),
                            surface: no_ink(),
                        },
                    ),
                },
            )
            &&& workspace.load_state !is Ready ==> is_drawn(
                state,
                layout,
                area,
                lines_in(
                    panes.detail_content,
                    seq![text_line("No details available"@, no_ink())],
                    true,
                ),
            )
            &&& workspace.load_state is Ready && workspace.selected_resource() is None ==> is_drawn(
                state,
                layout,
                area,
                lines_in(
                    panes.detail_content,
                    seq![text_line("Select a resource"@, no_ink())],
                    true,
                ),
            )
        }),
{
    let drawings = pane_drawings(state, workspace, panes);
    assert(drawings.contains(drawings[0]));
    lemma_details_are_drawn(state, layout, panes, area, workspace, drawings[0]);
    if workspace.load_state !is Ready || workspace.selected_resource() is None {
        assert(drawings.contains(drawings[1]));
        lemma_details_are_drawn(state, layout, panes, area, workspace, drawings[1]);
    }
}

/// What is seen of a Workspace that stands at a Resource.
proof fn lemma_inspected(
    workspace: WorkspaceModel,
    panels: Seq<PanelModel>,
    p: int,
    s: int,
    k: int,
)
    requires
        inspects(workspace, panels, p, s),
        0 <= k < tab_count(panels[p], s),
        workspace.selected_tab == tab_at(panels[p], k),
    ensures
        ({
            let views = panels[p].detail_views;
            workspace.presented() matches PresentationModel::Ready(view) && {
                &&& view.id == workspace.provider.id
                &&& view.focused_resource_panel == Some(panels[p].id)
                &&& view.selected_resource == Some(panels[p].resources[s])
                &&& view.detail_views == views
                &&& view.overview_selected == (k == 0)
                &&& view.shell_offered == (panels[p].resources[s].shell is Some)
                &&& view.shell_selected == (k == views.len() + 1)
                &&& view.selected_detail_view == (if 1 <= k <= views.len() {
                    Some(views[k - 1])
                } else {
                    None
                })
                &&& view.details == workspace.visible_details()
            }
        }),
{
    lemma_stands(workspace, panels, p, s);
    let views = panels[p].detail_views;
    if 1 <= k <= views.len() {
        let ids = view_ids(views);
        assert forall|j: int| 0 <= j < k - 1 implies ids[j] != views[k - 1].id by {
            assert(views[j].id != views[k - 1].id);
        }
        lemma_first_position_found(ids, views[k - 1].id, k - 1);
    }
}

/// The title of a tab.
pub open spec fn tab_title(panel: PanelModel, i: int) -> Seq<char> {
    if i == 0 {
        "Overview"@
    } else if i <= panel.detail_views.len() {
        panel.detail_views[i - 1].title
    } else {
        "Shell"@
    }
}

/// The labels of the tabs: in order, the selected one in brackets.
pub open spec fn titles(panel: PanelModel, s: int, k: int) -> Seq<Seq<char>> {
    Seq::new(tab_count(panel, s) as nat, |i: int| tab_text(tab_title(panel, i), i == k))
}

proof fn lemma_titles(workspace: WorkspaceModel, panels: Seq<PanelModel>, p: int, s: int, k: int)
    requires
        inspects(workspace, panels, p, s),
        0 <= k < tab_count(panels[p], s),
        workspace.selected_tab == tab_at(panels[p], k),
    ensures
        tab_labels(workspace.presented()->Ready_0) == titles(panels[p], s, k),
{
    lemma_inspected(workspace, panels, p, s, k);
    let view = workspace.presented()->Ready_0;
    let views = panels[p].detail_views;
    let labels = tab_labels(view);
    let expected = titles(panels[p], s, k);
    assert(labels.len() == expected.len());
    assert forall|i: int| 0 <= i < labels.len() implies labels[i] == expected[i] by {
        if 1 <= i <= views.len() {
            if 1 <= k <= views.len() && i != k {
                if i < k {
                    assert(views[i - 1].id != views[k - 1].id);
                } else {
                    assert(views[k - 1].id != views[i - 1].id);
                }
            }
        }
    }
    assert(labels =~= expected);
}

/// Every tab is drawn in its region, in order, the selected one in brackets and
/// set off; and the regions are as wide as the labels, two columns apart.
pub proof fn law_the_tabs_are_drawn(
    state: StateModel,
    layout: LayoutModel,
    panes: PanesModel,
    area: Rect,
    workspace: WorkspaceModel,
    panels: Seq<PanelModel>,
    p: int,
    s: int,
    k: int,
    i: int,
)
    requires
        state.active_workspace() == Some(workspace),
        layout.panes == Some(panes),
        inspects(workspace, panels, p, s),
        0 <= k < tab_count(panels[p], s),
        workspace.selected_tab == tab_at(panels[p], k),
        0 <= i < tab_count(panels[p], s),
        i < panes.detail_views.len(),
    ensures
        is_drawn(
            state,
            layout,
            area,
            label_in(
                panes.detail_views[i],
                tab_text(tab_title(panels[p], i), i == k),
                if i == k {
                    strong(Color::Blue)
                } else {
                    ink(Color::DarkGray)
                },
            ),
        ),
{
    lemma_inspected(workspace, panels, p, s, k);
    lemma_titles(workspace, panels, p, s, k);
    let view = workspace.presented()->Ready_0;
    let views = panels[p].detail_views;
    let tabs = tab_drawings(view, panes.detail_views);
    let drawings = pane_drawings(state, workspace, panes);
    if 1 <= i <= views.len() && 1 <= k <= views.len() && i != k {
        if i < k {
            assert(views[i - 1].id != views[k - 1].id);
        } else {
            assert(views[k - 1].id != views[i - 1].id);
        }
    }
    assert(drawings[drawings.len() - tabs.len() + i] == tabs[i]);
    assert(drawings.contains(tabs[i]));
    lemma_details_are_drawn(state, layout, panes, area, workspace, tabs[i]);
}

proof fn lemma_nothing_runs(
    running: Seq<RunningModel>,
    view: WorkspaceViewModel,
    panel_id: Seq<char>,
    resource: ResourceModel,
)
    requires
        view.focused_resource_panel == Some(panel_id),
        view.selected_resource == Some(resource),
        !is_running(running, view.id, panel_id, resource.id),
    ensures
        running_here(view, running) is None,
{
    lemma_running(running, view.id, TargetModel { panel_id, resource_id: resource.id });
}

/// The Overview names the selected Resource and lists what is known of it, line
/// by line.
pub proof fn law_the_overview_lists_the_fields(
    state: StateModel,
    layout: LayoutModel,
    panes: PanesModel,
    area: Rect,
    workspace: WorkspaceModel,
    panels: Seq<PanelModel>,
    p: int,
    s: int,
)
    requires
        state.active_workspace() == Some(workspace),
        layout.panes == Some(panes),
        inspects(workspace, panels, p, s),
        workspace.selected_tab is Overview,
        !is_running(
            state.running_commands,
            workspace.provider.id,
            panels[p].id,
            panels[p].resources[s].id,
        ),
    ensures
        ({
            let resource = panels[p].resources[s];
            exists|lines: Seq<LineModel>|
                {
                    &&& #[trigger] is_drawn(
                        state,
                        layout,
                        area,
                        lines_in(panes.detail_content, lines, true),
                    )
                    &&& lines.len() == resource.fields.len() + 1
                    &&& lines[0] == text_line(
                        resource.name,
                        TextStyle { fg: None, bg: None, bold: true },
                    )
                    &&& forall|i: int|
                        0 < i < lines.len() ==> #[trigger] lines[i] == (LineModel {
                            spans: seq![
                                words(resource.fields[i - 1].0, no_ink()),
                                words(": "@, no_ink()),
                                words(resource.fields[i - 1].1, no_ink()),
                            ],
                            style: no_ink(),
                        })
                }
        }),
{
    lemma_inspected(workspace, panels, p, s, 0);
    let view = workspace.presented()->Ready_0;
    let resource = panels[p].resources[s];
    lemma_nothing_runs(state.running_commands, view, panels[p].id, resource);
    let lines = overview_lines(resource);
    let drawings = pane_drawings(state, workspace, panes);
    assert(drawings[1] == lines_in(panes.detail_content, lines, true));
    assert(drawings.contains(drawings[1]));
    lemma_details_are_drawn(state, layout, panes, area, workspace, drawings[1]);
    assert(is_drawn(state, layout, area, lines_in(panes.detail_content, lines, true)));
}

/// While an operation runs on the selected Resource, the Details say so.
pub proof fn law_a_running_operation_is_announced(
    state: StateModel,
    layout: LayoutModel,
    panes: PanesModel,
    area: Rect,
    workspace: WorkspaceModel,
    panels: Seq<PanelModel>,
    p: int,
    s: int,
    k: int,
    running: RunningModel,
)
    requires
        state.active_workspace() == Some(workspace),
        layout.panes == Some(panes),
        inspects(workspace, panels, p, s),
        0 <= k < tab_count(panels[p], s),
        workspace.selected_tab == tab_at(panels[p], k),
        state.running_commands.len() > 0,
        state.running_commands[0] == running,
        running.provider_id == workspace.provider.id,
        running.target == (TargetModel {
            panel_id: panels[p].id,
            resource_id: panels[p].resources[s].id,
        }),
    ensures
        is_drawn(
            state,
            layout,
            area,
            DrawingModel {
                area: panes.detail_content,
                widget: WidgetModel::Paragraph {
                    lines: seq![
                        text_line(
                            "Running "@ + (match running.command {
                                ResourceCommand::Start => "start"@,
                                ResourceCommand::Stop => "stop"@,
                                ResourceCommand::Restart => "restart"@,
                                ResourceCommand::Resume => "resume"@,
                                ResourceCommand::Delete => "delete"@,
                            }) + " for "@ + running.resource_name + "…"@,
                            no_ink(),
                        ),
                    ],
                    frame: None,
                    wrap: false,
                    alignment: Alignment::Center,
                    style: strong(Color::Yellow),
                },
            },
        ),
{
    lemma_inspected(workspace, panels, p, s, k);
    let drawings = pane_drawings(state, workspace, panes);
    assert(drawings.contains(drawings[1]));
    lemma_details_are_drawn(state, layout, panes, area, workspace, drawings[1]);
}

/// Whether the Details show a declared view of the selected Resource, and
/// nothing runs on it.
pub open spec fn reads_view(
    state: StateModel,
    workspace: WorkspaceModel,
    panels: Seq<PanelModel>,
    p: int,
    s: int,
    k: int,
    details: DetailsModel,
) -> bool {
    &&& state.active_workspace() == Some(workspace)
    &&& inspects(workspace, panels, p, s)
    &&& 1 <= k <= panels[p].detail_views.len()
    &&& workspace.selected_tab == tab_at(panels[p], k)
    &&& workspace.details == Some(details)
    &&& workspace.visible_identity() == Some(details.target)
    &&& !is_running(
        state.running_commands,
        workspace.provider.id,
        panels[p].id,
        panels[p].resources[s].id,
    )
}

proof fn lemma_content_is_drawn(
    state: StateModel,
    layout: LayoutModel,
    panes: PanesModel,
    area: Rect,
    workspace: WorkspaceModel,
    panels: Seq<PanelModel>,
    p: int,
    s: int,
    k: int,
    details: DetailsModel,
)
    requires
        layout.panes == Some(panes),
        reads_view(state, workspace, panels, p, s, k, details),
    ensures
        is_drawn(
            state,
            layout,
            area,
            lines_in(
                panes.detail_content,
                content_lines(
                    workspace.provider.name,
                    crate::application::workspace::view::shown_details(details),
                    panes.detail_content.height,
                ),
                false,
            ),
        ),
{
    lemma_inspected(workspace, panels, p, s, k);
    let view = workspace.presented()->Ready_0;
    lemma_nothing_runs(state.running_commands, view, panels[p].id, panels[p].resources[s]);
    let drawings = pane_drawings(state, workspace, panes);
    assert(drawings.contains(drawings[1]));
    lemma_details_are_drawn(state, layout, panes, area, workspace, drawings[1]);
}

/// A Detail View that is loading, failed or came back empty says so, and of
/// which Resource.
pub proof fn law_a_view_without_content_says_why(
    state: StateModel,
    layout: LayoutModel,
    panes: PanesModel,
    area: Rect,
    workspace: WorkspaceModel,
    panels: Seq<PanelModel>,
    p: int,
    s: int,
    k: int,
    details: DetailsModel,
)
    requires
        layout.panes == Some(panes),
        reads_view(state, workspace, panels, p, s, k, details),
    ensures
        ({
            let name = workspace.provider.name;
            match details.content {
                ContentModel::Loading => is_drawn(
                    state,
                    layout,
                    area,
                    lines_in(
                        panes.detail_content,
                        seq![text_line("Loading "@ + details.title + "…"@, no_ink())],
                        false,
                    ),
                ),
                ContentModel::Error(message) => is_drawn(
                    state,
                    layout,
                    area,
                    lines_in(
                        panes.detail_content,
                        seq![
                            text_line(
                                name + " "@ + details.title + " failed for "@
                                    + details.resource_name + ":"@,
                                strong(Color::Red),
                            ),
                            text_line(message, no_ink()),
                        ],
                        false,
                    ),
                ),
                ContentModel::Ready(lines) => (forall|i: int|
                    0 <= i < lines.len() ==> is_blank(#[trigger] lines[i])) ==> is_drawn(
                    state,
                    layout,
                    area,
                    lines_in(
                        panes.detail_content,
                        seq![
                            text_line(
                                name + " returned no "@ + details.title + " for "@
                                    + details.resource_name,
                                ink(Color::DarkGray),
                            ),
                        ],
                        false,
                    ),
                ),
            }
        }),
{
    lemma_content_is_drawn(
        state,
        layout,
        panes,
        area,
        workspace,
        panels,
        p,
        s,
        k,
        details,
    );
}

/// Whether a position comes before another one in a text.
pub open spec fn comes_before(first: DetailPosition, last: DetailPosition) -> bool {
    first.line < last.line || first.line == last.line && first.column < last.column
}

/// Whether a line of a text is drawn with the part between two columns set off.
pub open spec fn sets_off(row: LineModel, text: Seq<char>, from: int, to: int) -> bool {
    &&& row.spans.len() == 3
    &&& row.spans[0] == words(text.take(from), no_ink())
    &&& row.spans[1] == words(
        text.subrange(from, to),
        TextStyle { fg: Some(Color::White), bg: Some(Color::Blue), bold: false },
    )
    &&& row.spans[2] == words(text.skip(to), no_ink())
    &&& row.style == no_ink()
}

/// Loaded details are drawn from the line they are scrolled to, as many lines
/// as there is room for, with the selected part of them set off.
pub proof fn law_loaded_details_are_read_line_by_line(
    state: StateModel,
    layout: LayoutModel,
    panes: PanesModel,
    area: Rect,
    workspace: WorkspaceModel,
    panels: Seq<PanelModel>,
    p: int,
    s: int,
    k: int,
    details: DetailsModel,
    lines: Seq<Seq<char>>,
    first: DetailPosition,
    last: DetailPosition,
)
    requires
        layout.panes == Some(panes),
        reads_view(state, workspace, panels, p, s, k, details),
        details.content == ContentModel::Ready(lines),
        lines.len() <= 65536,
        details.scroll < lines.len(),
        exists|i: int| 0 <= i < lines.len() && !is_blank(#[trigger] lines[i]),
        comes_before(first, last),
        last.line < lines.len(),
        first.column <= lines[first.line as int].len(),
        last.column <= lines[last.line as int].len(),
        details.selection is None || details.selection == Some(
            DetailSelection { start: first, end: last },
        ) || details.selection == Some(DetailSelection { start: last, end: first }),
    ensures
        exists|rows: Seq<LineModel>|
            {
                &&& #[trigger] is_drawn(
                    state,
                    layout,
                    area,
                    lines_in(panes.detail_content, rows, false),
                )
                &&& rows.len() == (if lines.len() - details.scroll < panes.detail_content.height {
                    lines.len() - details.scroll
                } else {
                    panes.detail_content.height as int
                })
                &&& forall|i: int|
                    0 <= i < rows.len() ==> {
                        let at = details.scroll + i;
                        if details.selection is None || at < first.line || at > last.line {
                            #[trigger] rows[i] == text_line(lines[at], no_ink())
                        } else {
                            sets_off(
                                rows[i],
                                lines[at],
                                if at == first.line {
                                    first.column as int
                                } else {
                                    0
                                },
                                if at == last.line {
                                    last.column as int
                                } else {
                                    lines[at].len() as int
                                },
                            )
                        }
                    }
            },
{
    lemma_content_is_drawn(
        state,
        layout,
        panes,
        area,
        workspace,
        panels,
        p,
        s,
        k,
        details,
    );
    let height = panes.detail_content.height;
    let rows = loaded_lines(lines, details.scroll, details.selection, height);
    assert(content_lines(
        workspace.provider.name,
        crate::application::workspace::view::shown_details(details),
        height,
    ) == rows);
    assert forall|i: int| 0 <= i < rows.len() implies {
        let at = details.scroll + i;
        if details.selection is None || at < first.line || at > last.line {
            #[trigger] rows[i] == text_line(lines[at], no_ink())
        } else {
            sets_off(
                rows[i],
                lines[at],
                if at == first.line {
                    first.column as int
                } else {
                    0
                },
                if at == last.line {
                    last.column as int
                } else {
                    lines[at].len() as int
                },
            )
        }
    } by {
        let at = details.scroll + i;
        assert(at % 0x10000 == at);
        if !(details.selection is None || at < first.line || at > last.line) {
            let from = if at == first.line {
                first.column as int
            } else {
                0
            };
            let to = if at == last.line {
                last.column as int
            } else {
                lines[at].len() as int
            };
            assert(rows[i].spans[0].text =~= lines[at].take(from));
            assert(rows[i].spans[1].text =~= lines[at].subrange(from, to));
            assert(rows[i].spans[2].text =~= lines[at].skip(to));
        }
    }
    assert(is_drawn(state, layout, area, lines_in(panes.detail_content, rows, false)));
}

/// A frame around a modal, in the colour of what it is about.
pub open spec fn modal_border(title: Seq<char>, color: Color) -> FrameModel {
    FrameModel {
        title,
        borders: Borders { left: true, right: true, top: true, bottom: true },
        accent: ink(color),
        surface: TextStyle { fg: None, bg: Some(Color::Black), bold: false },
    }
}

proof fn lemma_modal_is_drawn(
    state: StateModel,
    layout: LayoutModel,
    panes: PanesModel,
    area: Rect,
    workspace: WorkspaceModel,
    drawing: DrawingModel,
)
    requires
        state.active_workspace() == Some(workspace),
        layout.panes == Some(panes),
        help_drawings(state, area).contains(drawing) || error_drawings(state, area).contains(
            drawing,
        ) || confirmation_drawings(state, area).contains(drawing),
    ensures
        is_drawn(state, layout, area, drawing),
{
    let first = workspace_drawings(
        workspace.presented(),
        state.focused_pane == FocusedPane::Resources,
        state.hints.focus_resource_panels,
        state.running_commands,
        panes,
    );
    let second = pane_drawings(state, workspace, panes);
    let help = help_drawings(state, area);
    let error = error_drawings(state, area);
    let question = confirmation_drawings(state, area);
    if question.contains(drawing) {
        lemma_behind(first + second + help + error, question, drawing);
    } else {
        if error.contains(drawing) {
            lemma_behind(first + second + help, error, drawing);
        } else {
            lemma_behind(first + second, help, drawing);
            lemma_in_front(first + second + help, error, drawing);
        }
        lemma_in_front(first + second + help + error, question, drawing);
    }
    lemma_active_is_drawn(state, layout, panes, area, workspace, drawing);
}

/// A question names the Resource to delete, says what becomes of it and how to
/// answer. What was drawn beneath it is blanked.
pub proof fn law_a_question_names_the_resource(
    state: StateModel,
    layout: LayoutModel,
    panes: PanesModel,
    area: Rect,
    workspace: WorkspaceModel,
    invocation: InvocationModel,
)
    requires
        state.active_workspace() == Some(workspace),
        layout.panes == Some(panes),
        state.confirmation == Some(invocation),
    ensures
        ({
            let region = confirmation_region(state, area)->0;
            let asked = text_line(
                "Delete "@ + invocation.provider_name + " resource "@ + invocation.resource_name
                    + " ("@ + invocation.target.resource_id + ")?"@,
                no_ink(),
            );
            let answer = text_line("Press y/Enter to confirm or n/Esc to cancel."@, no_ink());
            let lines = if invocation.state == Some(ResourceState::Stopped) {
                seq![asked, answer]
            } else if invocation.state is Some {
                seq![asked, text_line("It will be stopped and removed."@, no_ink()), answer]
            } else {
                seq![asked, text_line("It will be permanently removed."@, no_ink()), answer]
            };
            &&& is_drawn(
                state,
                layout,
                area,
                lines_framed(
                    region,
                    lines,
                    modal_border(" Confirm deletion "@, Color::Yellow),
                    false,
                ),
            )
            &&& is_drawn(
                state,
                layout,
                area,
                DrawingModel { area: region, widget: WidgetModel::Clear },
            )
        }),
{
    let drawings = confirmation_drawings(state, area);
    let asked = text_line(
        "Delete "@ + invocation.provider_name + " resource "@ + invocation.resource_name + " ("@
            + invocation.target.resource_id + ")?"@,
        no_ink(),
    );
    let answer = text_line("Press y/Enter to confirm or n/Esc to cancel."@, no_ink());
    let lines = if invocation.state == Some(ResourceState::Stopped) {
        seq![asked, answer]
    } else if invocation.state is Some {
        seq![asked, text_line("It will be stopped and removed."@, no_ink()), answer]
    } else {
        seq![asked, text_line("It will be permanently removed."@, no_ink()), answer]
    };
    assert(confirmation_lines(invocation) =~= lines);
    assert(drawings.contains(drawings[0]));
    assert(drawings.contains(drawings[1]));
    lemma_modal_is_drawn(state, layout, panes, area, workspace, drawings[0]);
    lemma_modal_is_drawn(state, layout, panes, area, workspace, drawings[1]);
}

/// A failure is reported as it was put, with how to put it away.
pub proof fn law_a_failure_is_reported(
    state: StateModel,
    layout: LayoutModel,
    panes: PanesModel,
    area: Rect,
    workspace: WorkspaceModel,
    error: Seq<char>,
)
    requires
        state.active_workspace() == Some(workspace),
        layout.panes == Some(panes),
        state.command_error == Some(error),
    ensures
        ({
            let region = error_region(state, area)->0;
            &&& is_drawn(
                state,
                layout,
                area,
                lines_framed(
                    region,
                    seq![
                        text_line(error, ink(Color::Red)),
                        text_line("Press Esc to dismiss."@, no_ink()),
                    ],
                    modal_border(" Command failed "@, Color::Red),
                    true,
                ),
            )
            &&& is_drawn(
                state,
                layout,
                area,
                DrawingModel { area: region, widget: WidgetModel::Clear },
            )
        }),
{
    let drawings = error_drawings(state, area);
    assert(drawings.contains(drawings[0]));
    assert(drawings.contains(drawings[1]));
    lemma_modal_is_drawn(state, layout, panes, area, workspace, drawings[0]);
    lemma_modal_is_drawn(state, layout, panes, area, workspace, drawings[1]);
}

/// Help shows a line for every entry: its key and what it does.
pub proof fn law_help_shows_every_entry(
    state: StateModel,
    layout: LayoutModel,
    panes: PanesModel,
    area: Rect,
    workspace: WorkspaceModel,
    help: HelpModel,
)
    requires
        state.active_workspace() == Some(workspace),
        layout.panes == Some(panes),
        state.help_overlay == Some(help),
    ensures
        ({
            let region = help_region(state, area)->0;
            &&& exists|lines: Seq<LineModel>|
                {
                    &&& #[trigger] is_drawn(
                        state,
                        layout,
                        area,
                        lines_framed(
                            region,
                            lines,
                            modal_border(" Commands for "@ + help.target + " "@, Color::Blue),
                            false,
                        ),
                    )
                    &&& lines.len() == help.entries.len()
                    &&& forall|i: int|
                        0 <= i < lines.len() ==> #[trigger] lines[i] == text_line(
                            help.entries[i].key + "  "@ + help.entries[i].description,
                            no_ink(),
                        )
                }
            &&& is_drawn(
                state,
                layout,
                area,
                DrawingModel { area: region, widget: WidgetModel::Clear },
            )
        }),
{
    let drawings = help_drawings(state, area);
    let lines = help_lines(help);
    let region = help_region(state, area)->0;
    assert(drawings.contains(drawings[0]));
    assert(drawings.contains(drawings[1]));
    lemma_modal_is_drawn(state, layout, panes, area, workspace, drawings[0]);
    lemma_modal_is_drawn(state, layout, panes, area, workspace, drawings[1]);
    assert(is_drawn(
        state,
        layout,
        area,
        lines_framed(
            region,
            lines,
            modal_border(" Commands for "@ + help.target + " "@, Color::Blue),
            false,
        ),
    ));
}

/// The tabs have regions in a row: as wide as their labels, two columns apart,
/// from the left end of the row that they have.
pub proof fn law_the_tabs_lie_in_a_row(
    state: StateModel,
    area: Rect,
    divisions: DivisionsModel,
    workspace: WorkspaceModel,
    panels: Seq<PanelModel>,
    p: int,
    s: int,
    k: int,
)
    requires
        state.active_workspace() == Some(workspace),
        inspects(workspace, panels, p, s),
        0 <= k < tab_count(panels[p], s),
        workspace.selected_tab == tab_at(panels[p], k),
        divisions.details[0].y < u16::MAX,
        divisions.details[0].x + row_length(
            titles(panels[p], s, k),
            2,
            tab_count(panels[p], s),
        ) <= u16::MAX,
    ensures
        arranged(state, area, divisions).panes matches Some(panes) && lie_in_a_row(
            panes.detail_views,
            titles(panels[p], s, k),
            divisions.details[0].x as int,
            divisions.details[0].y,
            2,
        ),
{
    reveal(arranged);
    lemma_titles(workspace, panels, p, s, k);
    lemma_inspected(workspace, panels, p, s, k);
    lemma_labels_lie(
        titles(panels[p], s, k),
        divisions.details[0].x,
        divisions.details[0].y,
        2,
    );
}

/// A panel that cannot show everything has a scrollbar inside its right border:
/// a mark for every row, and the thumb on the share of them that is shown.
pub proof fn law_a_long_panel_has_a_scrollbar(
    state: StateModel,
    layout: LayoutModel,
    panes: PanesModel,
    area: Rect,
    workspace: WorkspaceModel,
    panels: Seq<PanelModel>,
    p: int,
)
    requires
        state.active_workspace() == Some(workspace),
        layout.panes == Some(panes),
        is_ready_at(workspace, panels, p),
        p < panes.resource_panels.len(),
        panes.resource_panels[p].height > 2,
        panes.resource_panels[p].width >= 2,
        panes.resource_panels[p].x + panes.resource_panels[p].width <= u16::MAX,
        panes.resource_panels[p].y + panes.resource_panels[p].height <= u16::MAX,
        panels[p].resources.len() > panes.resource_panels[p].height - 2,
    ensures
        ({
            let region = panes.resource_panels[p];
            let height = region.height - 2;
            let count = panels[p].resources.len() as int;
            let top = top_row(workspace.panel_navigation[p].selected_index, height, count);
            let first = top * height / count;
            let size = if height * height / count < 1 {
                1
            } else {
                height * height / count
            };
            exists|rows: Seq<LineModel>|
                {
                    &&& #[trigger] is_drawn(
                        state,
                        layout,
                        area,
                        lines_in(
                            Rect {
                                x: (region.x + region.width - 2) as u16,
                                y: (region.y + 1) as u16,
                                width: 1,
                                height: height as u16,
                            },
                            rows,
                            false,
                        ),
                    )
                    &&& rows.len() == height
                    &&& forall|i: int|
                        0 <= i < rows.len() ==> #[trigger] rows[i] == (if first <= i < first
                            + size {
                            text_line("█"@, ink(Color::DarkGray))
                        } else {
                            text_line("░"@, ink(Color::DarkGray))
                        })
                }
        }),
{
    lemma_panel_seen(workspace, panels, p);
    let view = workspace.presented()->Ready_0;
    let hints = state.hints.focus_resource_panels;
    let region = panes.resource_panels[p];
    let height = region.height - 2;
    let count = panels[p].resources.len() as int;
    let focused = state.focused_pane == FocusedPane::Resources && view.focused_resource_panel
        == Some(view.panels[p].panel.id);
    let drawings = panel_drawings(
        view.panels[p],
        panel_hint(hints, p),
        view.id,
        state.running_commands,
        focused,
        region,
    );
    let top = top_row(workspace.panel_navigation[p].selected_index, height, count);
    assert(first_visible(view.panels[p].selected_index, height, count) == top);
    let bar = drawings[1];
    let rows = bar.widget->lines;
    assert(drawings.contains(bar));
    lemma_panels_hold_panel(
        view,
        hints,
        state.running_commands,
        state.focused_pane == FocusedPane::Resources,
        panes.resource_panels,
        placed_panels(view, panes.resource_panels),
        p,
        bar,
    );
    lemma_workspace_is_drawn(state, layout, panes, area, workspace, bar);
    let place = Rect {
        x: (region.x + region.width - 2) as u16,
        y: (region.y + 1) as u16,
        width: 1,
        height: height as u16,
    };
    assert(bar == lines_in(place, rows, false));
    assert(is_drawn(state, layout, area, lines_in(place, rows, false)));
}

/// The topmost modal is drawn after everything else, on a place that was
/// blanked: a question, or else a failure, or else help.
pub proof fn law_the_topmost_modal_is_drawn_last(
    state: StateModel,
    layout: LayoutModel,
    panes: PanesModel,
    area: Rect,
    workspace: WorkspaceModel,
)
    requires
        state.active_workspace() == Some(workspace),
        layout.panes == Some(panes),
        state.confirmation is Some || state.command_error is Some || state.help_overlay is Some,
    ensures
        ({
            let all = screen_drawings(state, layout, area);
            let last = all[all.len() - 1];
            let beneath = all[all.len() - 2];
            let title = if state.confirmation is Some {
                " Confirm deletion "@
            } else if state.command_error is Some {
                " Command failed "@
            } else {
                " Commands for "@ + state.help_overlay->0.target + " "@
            };
            &&& all.len() >= 2
            &&& last.widget matches WidgetModel::Paragraph { frame: Some(frame), .. } && frame.title
                == title
            &&& beneath == (DrawingModel { area: last.area, widget: WidgetModel::Clear })
        }),
{
    let all = screen_drawings(state, layout, area);
    let help = help_drawings(state, area);
    let error = error_drawings(state, area);
    let question = confirmation_drawings(state, area);
    let n = all.len() as int;
    if state.confirmation is Some {
        assert(all[n - 1] == question[1]);
        assert(all[n - 2] == question[0]);
    } else if state.command_error is Some {
        assert(all[n - 1] == error[1]);
        assert(all[n - 2] == error[0]);
    } else {
        assert(all[n - 1] == help[1]);
        assert(all[n - 2] == help[0]);
    }
}

spec fn blanks_nothing(drawings: Seq<DrawingModel>) -> bool {
    forall|i: int| 0 <= i < drawings.len() ==> !((#[trigger] drawings[i]).widget is Clear)
}

proof fn lemma_panels_blank_nothing(
    view: WorkspaceViewModel,
    hints: Seq<Option<Seq<char>>>,
    running: Seq<RunningModel>,
    resource_focus: bool,
    areas: Seq<Rect>,
    count: nat,
)
    ensures
        blanks_nothing(panels_drawings(view, hints, running, resource_focus, areas, count)),
    decreases count,
{
    if count > 0 {
        lemma_panels_blank_nothing(
            view,
            hints,
            running,
            resource_focus,
            areas,
            (count - 1) as nat,
        );
    }
}

/// Without a modal nothing is blanked.
pub proof fn law_only_modals_blank_the_screen(
    state: StateModel,
    layout: LayoutModel,
    area: Rect,
    i: int,
)
    requires
        state.confirmation is None,
        state.command_error is None,
        state.help_overlay is None,
        0 <= i < screen_drawings(state, layout, area).len(),
    ensures
        !(screen_drawings(state, layout, area)[i].widget is Clear),
{
    let all = screen_drawings(state, layout, area);
    let bar = bar_drawings(state, layout);
    assert(blanks_nothing(bar));
    if let (Some(workspace), Some(panes)) = (state.active_workspace(), layout.panes) {
        let first = workspace_drawings(
            workspace.presented(),
            state.focused_pane == FocusedPane::Resources,
            state.hints.focus_resource_panels,
            state.running_commands,
            panes,
        );
        let second = pane_drawings(state, workspace, panes);
        if let PresentationModel::Ready(view) = workspace.presented() {
            lemma_panels_blank_nothing(
                view,
                state.hints.focus_resource_panels,
                state.running_commands,
                state.focused_pane == FocusedPane::Resources,
                panes.resource_panels,
                placed_panels(view, panes.resource_panels),
            );
        }
        assert(blanks_nothing(first));
        assert(blanks_nothing(second));
        let n = bar.len() as int;
        if i > n {
            if i - n - 1 < first.len() {
                assert(all[i] == first[i - n - 1]);
            } else {
                assert(all[i] == second[i - n - 1 - first.len()]);
            }
        }
    }
}

} // verus!
