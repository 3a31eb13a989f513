//! What is on the screen, region by region, text for text.

use vstd::prelude::*;

use super::drawing::{
    Alignment, Color, DrawingModel, FrameModel, LineModel, SpanModel, TextStyle, WidgetModel,
};
use super::geometry::{Borders, Rect};
use super::render::{
    active_drawings, bar_drawings, confirmation_drawings, details_drawings, error_drawings, footer,
    footer_spans, help_drawings, panel_drawings, panels_drawings, placed_panels, running_for,
    screen_drawings, shown_rows, workspace_drawings,
};
use super::screen_layout::{LayoutModel, PanesModel};
use crate::application::app::state::{FocusedPane, HelpEntryModel, RunningModel, StateModel};
use crate::application::provider::{PanelModel, ResourceModel};
use crate::application::workspace::model::{
    navigation_ids, LoadModel, NavigationModel, WorkspaceModel,
};
use crate::application::workspace::view::{PanelViewModel, PresentationModel, WorkspaceViewModel};
use crate::domain::{ResourceState, TargetModel};
use crate::text::{decimal, lemma_first_position_found};

verus! {

/// No style at all.
pub open spec fn no_ink() -> TextStyle {
    TextStyle { fg: None, bg: None, bold: false }
}

/// Text in a colour.
pub open spec fn ink(color: Color) -> TextStyle {
    TextStyle { fg: Some(color), bg: None, bold: false }
}

/// Bold text in a colour.
pub open spec fn strong(color: Color) -> TextStyle {
    TextStyle { fg: Some(color), bg: None, bold: true }
}

/// Bold text on blue.
pub open spec fn marked() -> TextStyle {
    TextStyle { fg: Some(Color::Reset), bg: Some(Color::Blue), bold: true }
}

/// A line of one text.
pub open spec fn text_line(text: Seq<char>, style: TextStyle) -> LineModel {
    LineModel { spans: seq![SpanModel { text, style: no_ink() }], style }
}

pub open spec fn words(text: Seq<char>, style: TextStyle) -> SpanModel {
    SpanModel { text, style }
}

/// Lines in a region, without a frame.
pub open spec fn lines_in(area: Rect, lines: Seq<LineModel>, wrap: bool) -> DrawingModel {
    DrawingModel {
        area,
        widget: WidgetModel::Paragraph {
            lines,
            frame: None,
            wrap,
            alignment: Alignment::Left,
            style: no_ink(),
        },
    }
}

/// Whether something is drawn on the screen.
pub open spec fn is_drawn(
    state: StateModel,
    layout: LayoutModel,
    area: Rect,
    drawing: DrawingModel,
) -> bool {
    screen_drawings(state, layout, area).contains(drawing)
}

pub(super) proof fn lemma_in_front<T>(first: Seq<T>, second: Seq<T>, item: T)
    requires
        first.contains(item),
    ensures
        (first + second).contains(item),
{
    let i = choose|i: int| 0 <= i < first.len() && first[i] == item;
    assert((first + second)[i] == item);
}

pub(super) proof fn lemma_behind<T>(first: Seq<T>, second: Seq<T>, item: T)
    requires
        second.contains(item),
    ensures
        (first + second).contains(item),
{
    let i = choose|i: int| 0 <= i < second.len() && second[i] == item;
    assert((first + second)[first.len() + i] == item);
}

/// The footer, in its band, shows every key of the bar and what it does, and
/// after them that `?` shows all of them.
pub proof fn law_the_footer_shows_the_bar(
    state: StateModel,
    layout: LayoutModel,
    area: Rect,
    i: int,
)
    ensures
        exists|spans: Seq<SpanModel>|
            {
                &&& #[trigger] is_drawn(
                    state,
                    layout,
                    area,
                    lines_in(layout.status, seq![LineModel { spans, style: no_ink() }], false),
                )
                &&& spans.len() == 2 * state.command_bar.len() + 2
                &&& 0 <= i < state.command_bar.len() ==> spans[2 * i] == words(
                    " "@ + state.command_bar[i].key + " "@,
                    marked(),
                ) && spans[2 * i + 1] == words(
                    " "@ + state.command_bar[i].description + "  "@,
                    no_ink(),
                )
                &&& spans[spans.len() - 2] == words(" ? "@, marked())
                &&& spans[spans.len() - 1] == words(" all commands"@, no_ink())
            },
{
    lemma_footer_spans(state.command_bar, i);
    let spans = footer_spans(state.command_bar) + seq![
        words(" ? "@, marked()),
        words(" all commands"@, no_ink()),
    ];
    let bar = bar_drawings(state, layout);
    let drawn = lines_in(layout.status, seq![LineModel { spans, style: no_ink() }], false);
    assert(footer(state, layout.status) == drawn);
    let all = screen_drawings(state, layout, area);
    assert(all[bar.len() as int] == drawn);
    assert(is_drawn(state, layout, area, drawn));
}

pub(super) proof fn lemma_footer_spans(entries: Seq<HelpEntryModel>, i: int)
    ensures
        footer_spans(entries).len() == 2 * entries.len(),
        0 <= i < entries.len() ==> footer_spans(entries)[2 * i] == words(
            " "@ + entries[i].key + " "@,
            marked(),
        ) && footer_spans(entries)[2 * i + 1] == words(
            " "@ + entries[i].description + "  "@,
            no_ink(),
        ),
    decreases entries.len(),
{
    if entries.len() > 0 {
        lemma_footer_spans(entries.drop_last(), i);
        if 0 <= i < entries.len() - 1 {
            assert(entries.drop_last()[i] == entries[i]);
        }
    }
}

/// Whether a Command runs for a Resource.
pub open spec fn is_running(
    running: Seq<RunningModel>,
    provider_id: Seq<char>,
    panel_id: Seq<char>,
    resource_id: Seq<char>,
) -> bool {
    exists|r: int|
        0 <= r < running.len() && (#[trigger] running[r]).provider_id == provider_id
            && running[r].target == (TargetModel { panel_id, resource_id })
}

pub(super) proof fn lemma_running(running: Seq<RunningModel>, provider_id: Seq<char>, target: TargetModel)
    ensures
        running_for(running, provider_id, target) is Some <==> is_running(
            running,
            provider_id,
            target.panel_id,
            target.resource_id,
        ),
    decreases running.len(),
{
    if running.len() > 0 {
        let rest = running.drop_first();
        lemma_running(rest, provider_id, target);
        if is_running(rest, provider_id, target.panel_id, target.resource_id) {
            let r = choose|r: int|
                0 <= r < rest.len() && (#[trigger] rest[r]).provider_id == provider_id
                    && rest[r].target == target;
            assert(running[r + 1].provider_id == provider_id);
        }
        if is_running(running, provider_id, target.panel_id, target.resource_id) {
            let r = choose|r: int|
                0 <= r < running.len() && (#[trigger] running[r]).provider_id == provider_id
                    && running[r].target == target;
            if r > 0 {
                assert(rest[r - 1].provider_id == provider_id);
            }
        }
    }
}

/// The mark in front of a Resource: that something runs on it, or the sign of
/// its state in the colour of the state.
pub open spec fn mark_of(resource: ResourceModel, running: bool) -> SpanModel {
    if running {
        words("*"@, ink(Color::Yellow))
    } else {
        match resource.state {
            Some(ResourceState::Running) => words("●"@, ink(Color::Green)),
            Some(ResourceState::Stopped) => words("○"@, ink(Color::DarkGray)),
            Some(ResourceState::Paused) => words("‖"@, ink(Color::Yellow)),
            Some(ResourceState::Transitioning) => words("↻"@, ink(Color::Blue)),
            Some(ResourceState::Broken) => words("✕"@, ink(Color::Red)),
            Some(ResourceState::Unknown) => words("?"@, ink(Color::Reset)),
            None => words(" "@, no_ink()),
        }
    }
}

/// Whether a line is the row of a Resource: its mark, its name, what else there
/// is to say of it, and the highlight of the selected one.
pub open spec fn is_row_of(
    row: LineModel,
    resource: ResourceModel,
    running: bool,
    selected: bool,
    focused: bool,
) -> bool {
    &&& row.spans.len() == (if resource.secondary_text is Some {
        5int
    } else {
        3
    })
    &&& row.spans[0] == mark_of(resource, running)
    &&& row.spans[1] == words(" "@, no_ink())
    &&& row.spans[2] == words(resource.name, no_ink())
    &&& resource.secondary_text matches Some(text) ==> row.spans[3] == words(" · "@, no_ink())
        && row.spans[4] == words(text, no_ink())
    &&& row.style == (if !selected {
        no_ink()
    } else if focused {
        TextStyle { fg: None, bg: Some(Color::Blue), bold: false }
    } else {
        TextStyle { fg: None, bg: Some(Color::DarkGray), bold: false }
    })
}

/// The first Resource on screen in a list of so many rows: the selected one is
/// the last row, unless it is among the first.
pub open spec fn top_row(selected: int, height: int, count: int) -> int {
    let shown = if height < count {
        height
    } else {
        count
    };
    if selected < shown {
        0
    } else {
        selected + 1 - shown
    }
}

/// A Pane title: its key in brackets where it has one, its label, and a mark
/// where the Pane has the focus.
pub open spec fn titled(key: Option<Seq<char>>, label: Seq<char>, focused: bool) -> Seq<char> {
    let title = match key {
        Some(key) => " ["@ + key + "] "@ + label + " "@,
        None => " "@ + label + " "@,
    };
    if focused {
        " ▶"@ + title
    } else {
        title
    }
}

/// Whether a panel has the focus.
pub open spec fn has_focus(state: StateModel, workspace: WorkspaceModel, panel: PanelModel) -> bool {
    state.focused_pane == FocusedPane::Resources && workspace.focused_resource_panel == Some(
        panel.id,
    )
}

/// The key that focuses a panel, where it has one.
pub open spec fn hint_at(hints: Seq<Option<Seq<char>>>, p: int) -> Option<Seq<char>> {
    if 0 <= p < hints.len() {
        hints[p]
    } else {
        None
    }
}

/// How the title and the borders of a Pane are drawn.
pub open spec fn pane_ink(focused: bool) -> TextStyle {
    if focused {
        strong(Color::Blue)
    } else {
        no_ink()
    }
}

/// The list of a Resource Panel, under its title and the number of its
/// Resources.
pub open spec fn panel_list(
    area: Rect,
    key: Option<Seq<char>>,
    panel: PanelModel,
    focused: bool,
    items: Seq<LineModel>,
) -> DrawingModel {
    DrawingModel {
        area,
        widget: WidgetModel::List {
            items,
            frame: FrameModel {
                title: titled(
                    key,
                    panel.title + " ("@ + decimal(panel.resources.len()) + ")"@,
                    focused,
                ),
                borders: Borders { left: false, right: true, top: true, bottom: true },
                accent: pane_ink(focused),
                surface: no_ink(),
            },
        },
    }
}

/// Whether a list shows a Resource Panel: one row for each Resource that there
/// is room for, from the top row on, in order.
pub open spec fn shows_panel(
    items: Seq<LineModel>,
    panel: PanelModel,
    entry: NavigationModel,
    provider_id: Seq<char>,
    running: Seq<RunningModel>,
    focused: bool,
    height: int,
) -> bool {
    let count = panel.resources.len() as int;
    let shown = if height < count {
        height
    } else {
        count
    };
    if shown <= 0 {
        items == seq![text_line("No resources"@, ink(Color::DarkGray))]
    } else {
        &&& items.len() == shown
        &&& forall|i: int|
            0 <= i < shown ==> {
                let resource = panel.resources[top_row(entry.selected_index, height, count) + i];
                is_row_of(
                    #[trigger] items[i],
                    resource,
                    is_running(running, provider_id, panel.id, resource.id),
                    entry.selected_resource == Some(resource.id),
                    focused,
                )
            }
    }
}

/// The height inside a panel's borders.
pub open spec fn rows_inside(area: Rect) -> int {
    if area.height < 2 {
        0
    } else {
        area.height - 2
    }
}

/// Whether a Workspace is ready with panels of identities of their own, and one
/// of them has a Resource selected, or none where it is empty.
pub open spec fn is_ready_at(
    workspace: WorkspaceModel,
    panels: Seq<PanelModel>,
    p: int,
) -> bool {
    &&& workspace.load_state == LoadModel::Ready(panels)
    &&& 0 <= p < panels.len()
    &&& workspace.panel_navigation.len() == panels.len()
    &&& workspace.panel_navigation[p].panel_id == panels[p].id
    &&& forall|q: int|
        0 <= q < p ==> (#[trigger] workspace.panel_navigation[q]).panel_id != panels[p].id
    &&& panels[p].resources.len() > 0 ==> 0 <= workspace.panel_navigation[p].selected_index
        < panels[p].resources.len()
    &&& panels[p].resources.len() == 0 ==> workspace.panel_navigation[p].selected_index == 0
}

pub(super) proof fn lemma_panel_seen(workspace: WorkspaceModel, panels: Seq<PanelModel>, p: int)
    requires
        is_ready_at(workspace, panels, p),
    ensures
        workspace.presented() is Ready,
        workspace.presented()->Ready_0.panels.len() == panels.len(),
        workspace.presented()->Ready_0.panels[p] == (PanelViewModel {
            panel: panels[p],
            selected_resource: workspace.panel_navigation[p].selected_resource,
            selected_index: workspace.panel_navigation[p].selected_index,
        }),
        workspace.presented()->Ready_0.id == workspace.provider.id,
        workspace.presented()->Ready_0.focused_resource_panel == workspace.focused_resource_panel,
{
    let ids = navigation_ids(workspace.panel_navigation);
    assert forall|q: int| 0 <= q < p implies ids[q] != panels[p].id by {
        assert(workspace.panel_navigation[q].panel_id != panels[p].id);
    }
    lemma_first_position_found(ids, panels[p].id, p);
}

pub(super) proof fn lemma_rows(
    view: PanelViewModel,
    provider_id: Seq<char>,
    running: Seq<RunningModel>,
    focused: bool,
    height: int,
)
    requires
        0 <= height,
        view.panel.resources.len() > 0 ==> 0 <= view.selected_index < view.panel.resources.len(),
        view.panel.resources.len() == 0 ==> view.selected_index == 0,
    ensures
        ({
            let rows = shown_rows(view, provider_id, running, focused, height);
            let count = view.panel.resources.len() as int;
            let shown = if height < count {
                height
            } else {
                count
            };
            &&& rows.len() == shown
            &&& forall|i: int|
                0 <= i < shown ==> {
                    let resource = view.panel.resources[top_row(view.selected_index, height, count)
                        + i];
                    is_row_of(
                        #[trigger] rows[i],
                        resource,
                        is_running(running, provider_id, view.panel.id, resource.id),
                        view.selected_resource == Some(resource.id),
                        focused,
                    )
                }
        }),
{
    let rows = shown_rows(view, provider_id, running, focused, height);
    let count = view.panel.resources.len() as int;
    let shown = if height < count {
        height
    } else {
        count
    };
    assert forall|i: int| 0 <= i < shown implies {
        let resource = view.panel.resources[top_row(view.selected_index, height, count) + i];
        is_row_of(
            #[trigger] rows[i],
            resource,
            is_running(running, provider_id, view.panel.id, resource.id),
            view.selected_resource == Some(resource.id),
            focused,
        )
    } by {
        let resource = view.panel.resources[top_row(view.selected_index, height, count) + i];
        lemma_running(
            running,
            provider_id,
            TargetModel { panel_id: view.panel.id, resource_id: resource.id },
        );
    }
}

pub(super) proof fn lemma_panels_hold_panel(
    view: WorkspaceViewModel,
    hints: Seq<Option<Seq<char>>>,
    running: Seq<RunningModel>,
    resource_focus: bool,
    areas: Seq<Rect>,
    count: nat,
    p: int,
    drawing: DrawingModel,
)
    requires
        0 <= p < count,
        panel_drawings(
            view.panels[p],
            super::render::panel_hint(hints, p),
            view.id,
            running,
            resource_focus && view.focused_resource_panel == Some(view.panels[p].panel.id),
            areas[p],
        ).contains(drawing),
    ensures
        panels_drawings(view, hints, running, resource_focus, areas, count).contains(drawing),
    decreases count,
{
    let last = count - 1;
    let earlier = panels_drawings(view, hints, running, resource_focus, areas, last as nat);
    let drawn = panel_drawings(
        view.panels[last],
        super::render::panel_hint(hints, last),
        view.id,
        running,
        resource_focus && view.focused_resource_panel == Some(view.panels[last].panel.id),
        areas[last],
    );
    if p == last {
        lemma_behind(earlier, drawn, drawing);
    } else {
        lemma_panels_hold_panel(
            view,
            hints,
            running,
            resource_focus,
            areas,
            last as nat,
            p,
            drawing,
        );
        lemma_in_front(earlier, drawn, drawing);
    }
}

/// What the Active Workspace draws is on the screen.
pub(super) proof fn lemma_active_is_drawn(
    state: StateModel,
    layout: LayoutModel,
    panes: PanesModel,
    area: Rect,
    workspace: WorkspaceModel,
    drawing: DrawingModel,
)
    requires
        state.active_workspace() == Some(workspace),
        layout.panes == Some(panes),
        active_drawings(state, workspace.provider.name, workspace.presented(), panes, area).contains(
            drawing,
        ),
    ensures
        is_drawn(state, layout, area, drawing),
{
    lemma_behind(
        bar_drawings(state, layout) + seq![footer(state, layout.status)],
        active_drawings(state, workspace.provider.name, workspace.presented(), panes, area),
        drawing,
    );
}

pub(super) proof fn lemma_workspace_is_drawn(
    state: StateModel,
    layout: LayoutModel,
    panes: PanesModel,
    area: Rect,
    workspace: WorkspaceModel,
    drawing: DrawingModel,
)
    requires
        state.active_workspace() == Some(workspace),
        layout.panes == Some(panes),
        workspace_drawings(
            workspace.presented(),
            state.focused_pane == FocusedPane::Resources,
            state.hints.focus_resource_panels,
            state.running_commands,
            panes,
        ).contains(drawing),
    ensures
        is_drawn(state, layout, area, drawing),
{
    let first = workspace_drawings(
        workspace.presented(),
        state.focused_pane == FocusedPane::Resources,
        state.hints.focus_resource_panels,
        state.running_commands,
        panes,
    );
    let second = details_drawings(
        workspace.provider.name,
        match workspace.presented() {
            PresentationModel::Ready(view) => Some(view),
            _ => None,
        },
        state.running_commands,
        state.focused_pane == FocusedPane::Details,
        state.hints.focus_details,
        panes,
    );
    let help = help_drawings(state, area);
    let error = error_drawings(state, area);
    lemma_in_front(first, second, drawing);
    lemma_in_front(first + second, help, drawing);
    lemma_in_front(first + second + help, error, drawing);
    lemma_in_front(
        first + second + help + error,
        confirmation_drawings(state, area),
        drawing,
    );
    lemma_active_is_drawn(state, layout, panes, area, workspace, drawing);
}

/// A Resource Panel is drawn in its region, under its title and the number of
/// its Resources: one row for each Resource that fits, the selected one among
/// them and highlighted.
pub proof fn law_a_panel_shows_its_resources(
    state: StateModel,
    layout: LayoutModel,
    panes: PanesModel,
    area: Rect,
    workspace: WorkspaceModel,
    panels: Seq<PanelModel>,
    p: int,
)
    requires
        state.active_workspace() == Some(workspace),
        layout.panes == Some(panes),
        is_ready_at(workspace, panels, p),
        p < panes.resource_panels.len(),
    ensures
        ({
            let entry = workspace.panel_navigation[p];
            let focused = has_focus(state, workspace, panels[p]);
            let hints = state.hints.focus_resource_panels;
            exists|items: Seq<LineModel>|
                {
                    &&& #[trigger] is_drawn(
                        state,
                        layout,
                        area,
                        panel_list(
                            panes.resource_panels[p],
                            hint_at(hints, p),
                            panels[p],
                            focused,
                            items,
                        ),
                    )
                    &&& shows_panel(
                        items,
                        panels[p],
                        entry,
                        workspace.provider.id,
                        state.running_commands,
                        focused,
                        rows_inside(panes.resource_panels[p]),
                    )
                }
        }),
{
    lemma_panel_seen(workspace, panels, p);
    let view = workspace.presented()->Ready_0;
    let focused = has_focus(state, workspace, panels[p]);
    let hints = state.hints.focus_resource_panels;
    let region = panes.resource_panels[p];
    let height = rows_inside(region);
    let drawings = panel_drawings(
        view.panels[p],
        super::render::panel_hint(hints, p),
        view.id,
        state.running_commands,
        focused,
        region,
    );
    let drawing = drawings[0];
    let items = drawing.widget->items;
    lemma_rows(view.panels[p], view.id, state.running_commands, focused, height);
    assert(drawings.contains(drawing));
    lemma_panels_hold_panel(
        view,
        hints,
        state.running_commands,
        state.focused_pane == FocusedPane::Resources,
        panes.resource_panels,
        placed_panels(view, panes.resource_panels),
        p,
        drawing,
    );
    lemma_workspace_is_drawn(state, layout, panes, area, workspace, drawing);
    assert(drawing == panel_list(region, hint_at(hints, p), panels[p], focused, items));
    assert(shows_panel(
        items,
        panels[p],
        workspace.panel_navigation[p],
        workspace.provider.id,
        state.running_commands,
        focused,
        height,
    ));
    assert(is_drawn(
        state,
        layout,
        area,
        panel_list(region, hint_at(hints, p), panels[p], focused, items),
    ));
}

} // verus!
