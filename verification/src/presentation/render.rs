//! What is drawn of the application, region by region.

use vstd::prelude::*;
use vstd::string::*;

use super::drawing::{
    badge, bare, draw, draw_all, framed, line, one_line, plain, push_line, push_span, span, themed,
    two_lines, Alignment, Color, Drawing, DrawingModel, Frame, FrameModel, Line, LineModel, Span,
    SpanModel, TextStyle, ThemeRole, Widget, WidgetModel,
};
use super::geometry::{held, rect, Rect};
use super::screen_layout::{
    active_target_label, arranged, chrome_borders, command_error_area, confirmation_area,
    confirmation_region, detail_tab_labels, error_region, first_visible, help_overlay_area,
    help_region, provider_selector_label, provider_workspace_label, selector_label, tab_labels,
    target_label, visible_count, visible_resource_range, workspace_label, DivisionsModel,
    LayoutModel, PaneChrome, PanesModel, ScreenLayout, WorkspacePanes,
};
use crate::application::app::state::{
    optional_texts, AppState, FocusedPane, HelpEntryModel, HelpModel, InvocationModel,
    RunningModel, RunningResourceCommand, StateModel,
};
use crate::application::command::resource_command_text;
use crate::application::provider::{Resource, ResourceModel};
use crate::application::workspace::model::{columns, selection_end, selection_start, ContentModel};
use crate::application::workspace::view::{
    PanelViewModel, PresentationModel, ResourceDetailsView, ResourcePanelView, ShownDetailsModel,
    WorkspacePresentation, WorkspaceView, WorkspaceViewModel,
};
use crate::application::workspace::{DetailContent, DetailSelection};
use crate::domain::{ProviderId, ResourceState, ResourceTarget, TargetModel};
use crate::text::{decimal, get, is_blank, opt_view, push_decimal, views};

verus! {

/// The style of a Pane's title and borders.
pub open spec fn title_style(focused: bool) -> TextStyle {
    if focused {
        themed(ThemeRole::Primary).bolded()
    } else {
        plain()
    }
}

pub fn panel_title_style(focused: bool) -> (style: TextStyle)
    ensures
        style == title_style(focused),
{
    if focused {
        TextStyle::themed(ThemeRole::Primary).bold()
    } else {
        TextStyle::plain()
    }
}

/// A Pane title: the focus key in front of the label, or only the label where
/// the focus Command is unbound.
pub open spec fn title_text(hint: Option<Seq<char>>, label: Seq<char>, focused: bool) -> Seq<char> {
    let title = match hint {
        Some(key) => " ["@ + key + "] "@ + label + " "@,
        None => " "@ + label + " "@,
    };
    if focused {
        " ▶"@ + title
    } else {
        title
    }
}

pub fn pane_title(hint: Option<&str>, label: &str, focused: bool) -> (title: String)
    ensures
        title@ == title_text(opt_view(hint), label@, focused),
{
    let mut title = String::new();
    if focused {
        title.append(" ▶");
    }
    let ghost mark = title@;
    match hint {
        Some(key) => {
            title.append(" [");
            title.append(key);
            title.append("] ");
            title.append(label);
            title.append(" ");
            assert(title@ =~= mark + (" ["@ + key@ + "] "@ + label@ + " "@));
        },
        None => {
            title.append(" ");
            title.append(label);
            title.append(" ");
            assert(title@ =~= mark + (" "@ + label@ + " "@));
        },
    }
    assert(title@ =~= title_text(opt_view(hint), label@, focused));
    title
}

/// The frame of a Pane.
pub open spec fn pane_frame(title: Seq<char>, focused: bool, chrome: PaneChrome) -> FrameModel {
    FrameModel {
        title,
        borders: chrome_borders(chrome),
        accent: title_style(focused),
        surface: plain(),
    }
}

pub fn pane_block(title: String, focused: bool, chrome: PaneChrome) -> (frame: Frame)
    ensures
        frame@ == pane_frame(title@, focused, chrome),
{
    Frame {
        title,
        borders: chrome.borders(),
        accent: panel_title_style(focused),
        surface: TextStyle::plain(),
    }
}

/// The frame of a modal: an accent around a raised surface.
pub open spec fn modal_frame(title: Seq<char>, accent: ThemeRole) -> FrameModel {
    FrameModel {
        title,
        borders: chrome_borders(PaneChrome::Full),
        accent: themed(accent),
        surface: TextStyle {
            fg: None,
            bg: Some(super::drawing::colour_of(ThemeRole::RaisedSurface)),
            bold: false,
        },
    }
}

pub fn modal_block(title: String, accent: ThemeRole) -> (frame: Frame)
    ensures
        frame@ == modal_frame(title@, accent),
{
    Frame {
        title,
        borders: PaneChrome::Full.borders(),
        accent: TextStyle::themed(accent),
        surface: TextStyle {
            fg: None,
            bg: Some(super::drawing::theme_colour(ThemeRole::RaisedSurface)),
            bold: false,
        },
    }
}

/// The symbol that a Resource's row starts with.
pub open spec fn state_symbol(state: ResourceState) -> Seq<char> {
    match state {
        ResourceState::Running => "●"@,
        ResourceState::Stopped => "○"@,
        ResourceState::Paused => "‖"@,
        ResourceState::Transitioning => "↻"@,
        ResourceState::Broken => "✕"@,
        ResourceState::Unknown => "?"@,
    }
}

pub fn resource_state_symbol(state: ResourceState) -> (symbol: &'static str)
    ensures
        symbol@ == state_symbol(state),
{
    match state {
        ResourceState::Running => "●",
        ResourceState::Stopped => "○",
        ResourceState::Paused => "‖",
        ResourceState::Transitioning => "↻",
        ResourceState::Broken => "✕",
        ResourceState::Unknown => "?",
    }
}

/// The colour role of a Resource State.
///
/// `Unknown` is deliberately left neutral: a status this Provider Workspace
/// does not recognise must not borrow the colour of a state Tuivir understands.
pub open spec fn state_role(state: ResourceState) -> ThemeRole {
    match state {
        ResourceState::Running => ThemeRole::Success,
        ResourceState::Stopped => ThemeRole::Muted,
        ResourceState::Paused => ThemeRole::Warning,
        ResourceState::Transitioning => ThemeRole::Primary,
        ResourceState::Broken => ThemeRole::Error,
        ResourceState::Unknown => ThemeRole::Terminal,
    }
}

/// Colours a Resource's status by its Resource State, so a paused or broken
/// Resource is distinguishable without reading the text.
pub fn resource_state_style(state: ResourceState) -> (style: TextStyle)
    ensures
        style == themed(state_role(state)),
{
    TextStyle::themed(
        match state {
            ResourceState::Running => ThemeRole::Success,
            ResourceState::Stopped => ThemeRole::Muted,
            ResourceState::Paused => ThemeRole::Warning,
            ResourceState::Transitioning => ThemeRole::Primary,
            ResourceState::Broken => ThemeRole::Error,
            ResourceState::Unknown => ThemeRole::Terminal,
        },
    )
}

/// The first Command still running for one Resource of one Provider.
pub open spec fn running_for(
    running: Seq<RunningModel>,
    provider_id: Seq<char>,
    target: TargetModel,
) -> Option<RunningModel>
    decreases running.len(),
{
    if running.len() == 0 {
        None
    } else if running[0].provider_id == provider_id && running[0].target == target {
        Some(running[0])
    } else {
        running_for(running.drop_first(), provider_id, target)
    }
}

fn find_running<'a>(
    running: &'a Vec<RunningResourceCommand>,
    provider_id: &ProviderId,
    target: &ResourceTarget,
) -> (found: Option<&'a RunningResourceCommand>)
    ensures
        opt_view(found) == running_for(views(running@), provider_id@, target@),
{
    let ghost all = views(running@);
    let mut i: usize = 0;
    assert(all.skip(0) =~= all);
    while i < running.len()
        invariant
            i <= running.len(),
            all == views(running@),
            running_for(all, provider_id@, target@) == running_for(
                all.skip(i as int),
                provider_id@,
                target@,
            ),
        decreases running.len() - i,
    {
        assert(all.skip(i as int)[0] == running@[i as int]@);
        assert(all.skip(i as int).drop_first() =~= all.skip(i + 1));
        if running[i].provider_id.same(provider_id) && running[i].target.same(target) {
            return Some(&running[i]);
        }
        i = i + 1;
    }
    None
}

/// The symbol in front of a Resource: what is running on it, or its state.
pub open spec fn row_symbol(resource: ResourceModel, running: bool) -> SpanModel {
    if running {
        span("*"@, themed(ThemeRole::Warning))
    } else {
        match resource.state {
            Some(state) => span(state_symbol(state), themed(state_role(state))),
            None => span(" "@, plain()),
        }
    }
}

/// The style of a row: the selected one stands out, and more so in the focused
/// panel.
pub open spec fn row_style(selected: bool, focused: bool) -> TextStyle {
    if selected {
        TextStyle {
            fg: None,
            bg: Some(
                super::drawing::colour_of(
                    if focused {
                        ThemeRole::Selection
                    } else {
                        ThemeRole::InactiveSelection
                    },
                ),
            ),
            bold: false,
        }
    } else {
        plain()
    }
}

/// One row of a panel. It starts with the Resource State symbol, leaving the
/// Resource name easy to scan without repeating Provider-specific status text.
pub open spec fn resource_row(
    resource: ResourceModel,
    running: bool,
    selected: bool,
    focused: bool,
) -> LineModel {
    LineModel {
        spans: seq![
            row_symbol(resource, running),
            span(" "@, plain()),
            span(resource.name, plain()),
        ] + (match resource.secondary_text {
            Some(text) => seq![span(" · "@, plain()), span(text, plain())],
            None => Seq::empty(),
        }),
        style: row_style(selected, focused),
    }
}

fn draw_row(resource: &Resource, running: bool, selected: bool, focused: bool) -> (row: Line)
    ensures
        row@ == resource_row(resource@, running, selected, focused),
{
    let mut spans: Vec<Span> = Vec::new();
    if running {
        push_span(&mut spans, "*", TextStyle::themed(ThemeRole::Warning));
    } else {
        match resource.state {
            Some(state) => push_span(
                &mut spans,
                resource_state_symbol(state),
                resource_state_style(state),
            ),
            None => push_span(&mut spans, " ", TextStyle::plain()),
        }
    }
    push_span(&mut spans, " ", TextStyle::plain());
    push_span(&mut spans, resource.name.as_str(), TextStyle::plain());
    match &resource.secondary_text {
        Some(text) => {
            push_span(&mut spans, " · ", TextStyle::plain());
            push_span(&mut spans, text.as_str(), TextStyle::plain());
        },
        None => {},
    }
    let style = if selected {
        TextStyle {
            fg: None,
            bg: Some(
                super::drawing::theme_colour(
                    if focused {
                        ThemeRole::Selection
                    } else {
                        ThemeRole::InactiveSelection
                    },
                ),
            ),
            bold: false,
        }
    } else {
        TextStyle::plain()
    };
    let row = Line { spans, style };
    assert(row@.spans =~= resource_row(resource@, running, selected, focused).spans);
    row
}

/// The rows that a panel shows.
pub open spec fn shown_rows(
    view: PanelViewModel,
    provider_id: Seq<char>,
    running: Seq<RunningModel>,
    focused: bool,
    height: int,
) -> Seq<LineModel> {
    let panel = view.panel;
    let count = panel.resources.len() as int;
    let start = first_visible(view.selected_index, height, count);
    Seq::new(
        visible_count(height, count) as nat,
        |i: int|
            {
                let resource = panel.resources[start + i];
                resource_row(
                    resource,
                    running_for(
                        running,
                        provider_id,
                        TargetModel { panel_id: panel.id, resource_id: resource.id },
                    ) is Some,
                    view.selected_resource == Some(resource.id),
                    focused,
                )
            },
    )
}

/// What a panel lists: its rows, or that it has none.
pub open spec fn panel_items(rows: Seq<LineModel>) -> Seq<LineModel> {
    if rows.len() == 0 {
        seq![line("No resources"@, themed(ThemeRole::Muted))]
    } else {
        rows
    }
}

/// The height of a scrollbar's thumb.
pub open spec fn thumb_height(height: int, count: int) -> int {
    let share = height * height / count;
    if share < 1 {
        1
    } else {
        share
    }
}

/// Where a scrollbar's thumb begins.
pub open spec fn thumb_start(first: int, height: int, count: int) -> int {
    first * height / count
}

/// The scrollbar of a panel that cannot show everything it has.
pub open spec fn scrollbar(first: int, height: int, count: int, area: Rect) -> Seq<DrawingModel> {
    if count <= height || height == 0 || area.width < 2 {
        Seq::empty()
    } else {
        let start = thumb_start(first, height, count);
        let end = start + thumb_height(height, count);
        seq![
            bare(
                rect(
                    held(held(area.x + area.width) - 2),
                    held(area.y + 1),
                    1,
                    held(area.height - 2),
                ),
                Seq::new(
                    height as nat,
                    |row: int|
                        line(
                            if start <= row < end {
                                "█"@
                            } else {
                                "░"@
                            },
                            themed(ThemeRole::Muted),
                        ),
                ),
                false,
            ),
        ]
    }
}

/// Everything drawn of one Resource Panel.
pub open spec fn panel_drawings(
    view: PanelViewModel,
    hint: Option<Seq<char>>,
    provider_id: Seq<char>,
    running: Seq<RunningModel>,
    focused: bool,
    area: Rect,
) -> Seq<DrawingModel> {
    let panel = view.panel;
    let count = panel.resources.len();
    let height = held(area.height - 2) as int;
    seq![
        DrawingModel {
            area,
            widget: WidgetModel::List {
                items: panel_items(shown_rows(view, provider_id, running, focused, height)),
                frame: pane_frame(
                    title_text(hint, panel.title + " ("@ + decimal(count) + ")"@, focused),
                    focused,
                    PaneChrome::Resource,
                ),
            },
        },
    ] + scrollbar(
        first_visible(view.selected_index, height, count as int),
        height,
        count as int,
        area,
    )
}

fn render_resource_scrollbar(first: usize, height: usize, count: usize, area: Rect) -> (drawings:
    Vec<Drawing>)
    requires
        height <= u16::MAX,
    ensures
        views(drawings@) == scrollbar(first as int, height as int, count as int, area),
{
    let mut drawings: Vec<Drawing> = Vec::new();
    assert(views(drawings@) =~= Seq::<DrawingModel>::empty());
    if count <= height || height == 0 || area.width < 2 {
        return drawings;
    }
    proof {
        assert(0 <= first * height) by (nonlinear_arith);
        assert(first * height <= 0xffff_ffff_ffff_ffff * 0xffff) by (nonlinear_arith)
            requires
                first <= 0xffff_ffff_ffff_ffff,
                height <= 0xffff,
        ;
        assert(height * height <= 0xffff * 0xffff) by (nonlinear_arith)
            requires
                height <= 0xffff,
        ;
    }
    let share: u128 = height as u128 * height as u128 / count as u128;
    let thumb: u128 = if share < 1 {
        1
    } else {
        share
    };
    let start: u128 = first as u128 * height as u128 / count as u128;
    let ghost all = Seq::new(
        height as nat,
        |row: int|
            line(
                if start <= row < start + thumb {
                    "█"@
                } else {
                    "░"@
                },
                themed(ThemeRole::Muted),
            ),
    );
    proof {
        assert(start as int == thumb_start(first as int, height as int, count as int));
        assert(thumb as int == thumb_height(height as int, count as int));
        assert(start <= first as u128 * height as u128) by (nonlinear_arith)
            requires
                start == (first as int * height as int) / (count as int),
                count > 0,
                0 <= first as int * height as int,
        ;
    }
    let mut lines: Vec<Line> = Vec::new();
    let mut row: usize = 0;
    assert(views(lines@) =~= all.take(0));
    while row < height
        invariant
            row <= height,
            start + thumb <= u128::MAX,
            all == Seq::new(
                height as nat,
                |row: int|
                    line(
                        if start <= row < start + thumb {
                            "█"@
                        } else {
                            "░"@
                        },
                        themed(ThemeRole::Muted),
                    ),
            ),
            views(lines@) == all.take(row as int),
        decreases height - row,
    {
        let symbol = if start <= row as u128 && (row as u128) < start + thumb {
            "█"
        } else {
            "░"
        };
        let made = Line::new(symbol, TextStyle::themed(ThemeRole::Muted));
        assert(made@ == all[row as int]);
        push_line(&mut lines, made);
        assert(all.take(row + 1) =~= all.take(row as int).push(all[row as int]));
        row = row + 1;
    }
    assert(all.take(row as int) =~= all);
    let bar = Rect::new(
        area.right().saturating_sub(2),
        area.y.saturating_add(1),
        1,
        area.height.saturating_sub(2),
    );
    draw(&mut drawings, Drawing::bare(bar, lines, false));
    assert(views(drawings@) =~= scrollbar(first as int, height as int, count as int, area));
    drawings
}

fn list_rows(
    view: &ResourcePanelView<'_>,
    provider_id: &ProviderId,
    running: &Vec<RunningResourceCommand>,
    focused: bool,
    height: usize,
) -> (rows: Vec<Line>)
    ensures
        views(rows@) == shown_rows(
            view@,
            provider_id@,
            views(running@),
            focused,
            height as int,
        ),
{
    let panel = view.panel;
    assert(view@.panel.resources.len() == panel.resources.len());
    let visible = visible_resource_range(view.selected_index, height, panel.resources.len());
    let count: usize = visible.end - visible.start;
    let ghost all = shown_rows(view@, provider_id@, views(running@), focused, height as int);
    let mut rows: Vec<Line> = Vec::new();
    let mut i: usize = 0;
    assert(views(rows@) =~= all.take(0));
    while i < count
        invariant
            i <= count,
            visible.start + count <= panel.resources.len(),
            panel == view.panel,
            all == shown_rows(view@, provider_id@, views(running@), focused, height as int),
            all.len() == count,
            visible.start == first_visible(
                view@.selected_index,
                height as int,
                view@.panel.resources.len() as int,
            ),
            views(rows@) == all.take(i as int),
        decreases count - i,
    {
        let resource = &panel.resources[visible.start + i];
        assert(view@.panel.resources[visible.start + i] == resource@);
        let target = ResourceTarget::new(panel.id.clone(), resource.id.clone());
        let busy = find_running(running, provider_id, &target).is_some();
        let selected = match view.selected_resource {
            Some(selected) => selected.same(&resource.id),
            None => false,
        };
        let row = draw_row(resource, busy, selected, focused);
        assert(row@ == all[i as int]);
        push_line(&mut rows, row);
        assert(all.take(i + 1) =~= all.take(i as int).push(all[i as int]));
        i = i + 1;
    }
    assert(all.take(i as int) =~= all);
    rows
}

/// Draws one Resource Panel.
fn render_resource_panel(
    view: &ResourcePanelView<'_>,
    hint: Option<&str>,
    provider_id: &ProviderId,
    running: &Vec<RunningResourceCommand>,
    focused: bool,
    area: Rect,
) -> (drawings: Vec<Drawing>)
    ensures
        views(drawings@) == panel_drawings(
            view@,
            opt_view(hint),
            provider_id@,
            views(running@),
            focused,
            area,
        ),
{
    let panel = view.panel;
    let count: usize = panel.resources.len();
    assert(view@.panel.resources.len() == count);
    let height: usize = area.height.saturating_sub(2) as usize;
    let rows = list_rows(view, provider_id, running, focused, height);
    let ghost listed = views(rows@);
    let items = if rows.len() == 0 {
        one_line(Line::new("No resources", TextStyle::themed(ThemeRole::Muted)))
    } else {
        rows
    };
    assert(views(items@) == panel_items(listed));
    let mut label = panel.title.clone();
    label.append(" (");
    push_decimal(&mut label, count as u64);
    label.append(")");
    let frame = pane_block(
        pane_title(hint, label.as_str(), focused),
        focused,
        PaneChrome::Resource,
    );
    let mut drawings: Vec<Drawing> = Vec::new();
    assert(views(drawings@) =~= Seq::<DrawingModel>::empty());
    draw(&mut drawings, Drawing { area, widget: Widget::List { items, frame } });
    let visible = visible_resource_range(view.selected_index, height, count);
    draw_all(&mut drawings, render_resource_scrollbar(visible.start, height, count, area));
    assert(views(drawings@) =~= panel_drawings(
        view@,
        opt_view(hint),
        provider_id@,
        views(running@),
        focused,
        area,
    ));
    drawings
}

/// The key hint of a panel by its position.
pub open spec fn panel_hint(hints: Seq<Option<Seq<char>>>, index: int) -> Option<Seq<char>> {
    match get(hints, index) {
        Some(hint) => hint,
        None => None,
    }
}

fn hint_at(hints: &Vec<Option<String>>, index: usize) -> (hint: Option<&str>)
    ensures
        opt_view(hint) == panel_hint(optional_texts(hints@), index as int),
{
    if index < hints.len() {
        assert(optional_texts(hints@)[index as int] == opt_view(hints@[index as int]));
        match &hints[index] {
            Some(text) => Some(text.as_str()),
            None => None,
        }
    } else {
        None
    }
}

/// Everything drawn of the first panels.
pub open spec fn panels_drawings(
    view: WorkspaceViewModel,
    hints: Seq<Option<Seq<char>>>,
    running: Seq<RunningModel>,
    resource_focus: bool,
    areas: Seq<Rect>,
    count: nat,
) -> Seq<DrawingModel>
    decreases count,
{
    if count == 0 {
        Seq::empty()
    } else {
        let index = count - 1;
        panels_drawings(view, hints, running, resource_focus, areas, index as nat)
            + panel_drawings(
            view.panels[index],
            panel_hint(hints, index),
            view.id,
            running,
            resource_focus && view.focused_resource_panel == Some(view.panels[index].panel.id),
            areas[index],
        )
    }
}

/// How many panels have a region to be drawn in.
pub open spec fn placed_panels(view: WorkspaceViewModel, areas: Seq<Rect>) -> nat {
    if view.panels.len() <= areas.len() {
        view.panels.len()
    } else {
        areas.len()
    }
}

/// Everything drawn where the Resource Panels are.
pub open spec fn workspace_drawings(
    presentation: PresentationModel,
    resource_focus: bool,
    hints: Seq<Option<Seq<char>>>,
    running: Seq<RunningModel>,
    panes: PanesModel,
) -> Seq<DrawingModel> {
    let hint = panel_hint(hints, 0);
    match presentation {
        PresentationModel::Loading { name } => seq![
            framed(
                panes.resources,
                seq![line("Refreshing…"@, plain())],
                pane_frame(
                    title_text(hint, "Resources"@, resource_focus),
                    resource_focus,
                    PaneChrome::Full,
                ),
                false,
            ),
        ],
        PresentationModel::Error { name, error } => seq![
            framed(
                panes.resources,
                seq![
                    line(
                        name + " provider is unavailable"@,
                        themed(ThemeRole::Error).bolded(),
                    ),
                    line(error, plain()),
                ],
                pane_frame(
                    title_text(hint, "Error"@, resource_focus),
                    resource_focus,
                    PaneChrome::Full,
                ),
                true,
            ),
        ],
        PresentationModel::Ready(view) => if view.panels.len() == 0 {
            seq![
                framed(
                    panes.resources,
                    seq![line("No Resource Panels available"@, plain())],
                    pane_frame(
                        title_text(hint, "Resources"@, resource_focus),
                        resource_focus,
                        PaneChrome::Resource,
                    ),
                    false,
                ),
            ]
        } else {
            panels_drawings(
                view,
                hints,
                running,
                resource_focus,
                panes.resource_panels,
                placed_panels(view, panes.resource_panels),
            )
        },
    }
}

fn render_panels(
    view: &WorkspaceView<'_>,
    hints: &Vec<Option<String>>,
    running: &Vec<RunningResourceCommand>,
    resource_focus: bool,
    areas: &Vec<Rect>,
) -> (drawings: Vec<Drawing>)
    ensures
        views(drawings@) == panels_drawings(
            view@,
            optional_texts(hints@),
            views(running@),
            resource_focus,
            areas@,
            placed_panels(view@, areas@),
        ),
{
    let panels = view.panels();
    let ghost shown = view@;
    let ghost texts = optional_texts(hints@);
    let ghost busy = views(running@);
    assert(panels.len() == shown.panels.len());
    let count: usize = if panels.len() <= areas.len() {
        panels.len()
    } else {
        areas.len()
    };
    let mut drawings: Vec<Drawing> = Vec::new();
    let mut i: usize = 0;
    assert(views(drawings@) =~= Seq::<DrawingModel>::empty());
    while i < count
        invariant
            i <= count,
            count <= panels.len(),
            count <= areas.len(),
            shown == view@,
            texts == optional_texts(hints@),
            busy == views(running@),
            views(panels@) == shown.panels,
            views(drawings@) == panels_drawings(
                shown,
                texts,
                busy,
                resource_focus,
                areas@,
                i as nat,
            ),
        decreases count - i,
    {
        let panel = &panels[i];
        assert(shown.panels[i as int] == panel@);
        let focused = resource_focus && match view.focused_resource_panel {
            Some(focused) => focused.same(&panel.panel.id),
            None => false,
        };
        let drawn = render_resource_panel(
            panel,
            hint_at(hints, i),
            view.id,
            running,
            focused,
            areas[i],
        );
        draw_all(&mut drawings, drawn);
        i = i + 1;
    }
    drawings
}

/// Draws what is where the Resource Panels are.
fn render_workspace_panel(
    presentation: &WorkspacePresentation<'_>,
    resource_focus: bool,
    hints: &Vec<Option<String>>,
    running: &Vec<RunningResourceCommand>,
    panes: &WorkspacePanes,
) -> (drawings: Vec<Drawing>)
    ensures
        views(drawings@) == workspace_drawings(
            presentation@,
            resource_focus,
            optional_texts(hints@),
            views(running@),
            panes@,
        ),
{
    let hint = hint_at(hints, 0);
    let mut drawings: Vec<Drawing> = Vec::new();
    assert(views(drawings@) =~= Seq::<DrawingModel>::empty());
    match presentation {
        WorkspacePresentation::Loading { name } => {
            let frame = pane_block(
                pane_title(hint, "Resources", resource_focus),
                resource_focus,
                PaneChrome::Full,
            );
            draw(
                &mut drawings,
                Drawing::framed(
                    panes.resources,
                    one_line(Line::new("Refreshing…", TextStyle::plain())),
                    frame,
                    false,
                ),
            );
        },
        WorkspacePresentation::Error { name, error } => {
            let frame = pane_block(
                pane_title(hint, "Error", resource_focus),
                resource_focus,
                PaneChrome::Full,
            );
            let mut heading = (*name).to_owned();
            heading.append(" provider is unavailable");
            let lines = two_lines(
                Line::new(heading.as_str(), TextStyle::themed(ThemeRole::Error).bold()),
                Line::new(error.message.as_str(), TextStyle::plain()),
            );
            draw(&mut drawings, Drawing::framed(panes.resources, lines, frame, true));
        },
        WorkspacePresentation::Ready(view) => {
            assert(view@.panels.len() == view.snapshot.panels.len());
            if view.snapshot.panels.len() == 0 {
                let frame = pane_block(
                    pane_title(hint, "Resources", resource_focus),
                    resource_focus,
                    PaneChrome::Resource,
                );
                draw(
                    &mut drawings,
                    Drawing::framed(
                        panes.resources,
                        one_line(
                            Line::new("No Resource Panels available", TextStyle::plain()),
                        ),
                        frame,
                        false,
                    ),
                );
            } else {
                return render_panels(view, hints, running, resource_focus, &panes.resource_panels);
            }
        },
    }
    assert(views(drawings@) =~= workspace_drawings(
        presentation@,
        resource_focus,
        optional_texts(hints@),
        views(running@),
        panes@,
    ));
    drawings
}

/// One field of a Resource's Overview.
pub open spec fn field_line(field: (Seq<char>, Seq<char>)) -> LineModel {
    LineModel {
        spans: seq![span(field.0, plain()), span(": "@, plain()), span(field.1, plain())],
        style: plain(),
    }
}

/// What the snapshot itself says of a Resource: its name, and its fields.
pub open spec fn overview_lines(resource: ResourceModel) -> Seq<LineModel> {
    seq![line(resource.name, plain().bolded())] + resource.fields.map_values(
        |field: (Seq<char>, Seq<char>)| field_line(field),
    )
}

fn draw_overview(resource: &Resource) -> (lines: Vec<Line>)
    ensures
        views(lines@) == overview_lines(resource@),
{
    let ghost all = overview_lines(resource@);
    let mut lines = one_line(Line::new(resource.name.as_str(), TextStyle::plain().bold()));
    let mut i: usize = 0;
    assert(views(lines@) =~= all.take(1));
    while i < resource.fields.len()
        invariant
            i <= resource.fields.len(),
            all == overview_lines(resource@),
            views(lines@) == all.take(i + 1),
        decreases resource.fields.len() - i,
    {
        let mut spans: Vec<Span> = Vec::new();
        push_span(&mut spans, resource.fields[i].0, TextStyle::plain());
        push_span(&mut spans, ": ", TextStyle::plain());
        push_span(&mut spans, resource.fields[i].1.as_str(), TextStyle::plain());
        let made = Line { spans, style: TextStyle::plain() };
        proof {
            let field = resource@.fields[i as int];
            assert(field == (resource.fields@[i as int].0@, resource.fields@[i as int].1@));
            assert(made@.spans =~= field_line(field).spans);
            assert(all[i + 1] == field_line(field));
        }
        push_line(&mut lines, made);
        assert(all.take(i + 2) =~= all.take(i + 1).push(all[i + 1]));
        i = i + 1;
    }
    assert(all.take(i + 1) =~= all);
    lines
}

/// One line of loaded Details, with the selected part of it set off.
pub open spec fn content_line(
    text: Seq<char>,
    index: u16,
    selection: Option<DetailSelection>,
) -> LineModel {
    match selection {
        Some(selection) => {
            let start = selection_start(selection);
            let end = selection_end(selection);
            if start == end || index < start.line || index > end.line {
                line(text, plain())
            } else {
                let first = if index == start.line {
                    start.column as int
                } else {
                    0
                };
                let last = if index == end.line {
                    end.column as int
                } else {
                    text.len() as int
                };
                LineModel {
                    spans: seq![
                        span(columns(text, 0, first), plain()),
                        span(columns(text, first, last), selected_style()),
                        span(columns(text, last, text.len() as int), plain()),
                    ],
                    style: plain(),
                }
            }
        },
        None => line(text, plain()),
    }
}

/// How selected Details text is set off.
pub open spec fn selected_style() -> TextStyle {
    TextStyle { fg: Some(Color::White), bg: Some(Color::Blue), bold: false }
}

/// The characters of a text from one column up to another.
fn text_between(text: &str, from: usize, to: usize) -> (part: &str)
    ensures
        part@ == columns(text@, from as int, to as int),
{
    let count: usize = text.unicode_len();
    let first: usize = if from < count {
        from
    } else {
        count
    };
    let last: usize = if to < first {
        first
    } else if to > count {
        count
    } else {
        to
    };
    text.substring_char(first, last)
}

fn detail_line(text: &str, index: u16, selection: Option<DetailSelection>) -> (made: Line)
    ensures
        made@ == content_line(text@, index, selection),
{
    let selection = match selection {
        Some(selection) => selection,
        None => return Line::new(text, TextStyle::plain()),
    };
    let ordered = selection.start.line < selection.end.line || (selection.start.line
        == selection.end.line && selection.start.column <= selection.end.column);
    let (start, end) = if ordered {
        (selection.start, selection.end)
    } else {
        (selection.end, selection.start)
    };
    if start == end || index < start.line || index > end.line {
        return Line::new(text, TextStyle::plain());
    }
    let count: usize = text.unicode_len();
    let first: usize = if index == start.line {
        start.column as usize
    } else {
        0
    };
    let last: usize = if index == end.line {
        end.column as usize
    } else {
        count
    };
    let mut spans: Vec<Span> = Vec::new();
    push_span(&mut spans, text_between(text, 0, first), TextStyle::plain());
    push_span(
        &mut spans,
        text_between(text, first, last),
        TextStyle { fg: Some(Color::White), bg: Some(Color::Blue), bold: false },
    );
    push_span(&mut spans, text_between(text, last, count), TextStyle::plain());
    let made = Line { spans, style: TextStyle::plain() };
    assert(made@.spans =~= content_line(text@, index, Some(selection)).spans);
    made
}

/// How many lines of loaded content are on screen.
pub open spec fn shown_line_count(count: int, scroll: int, height: int) -> int {
    if count <= scroll {
        0
    } else if count - scroll < height {
        count - scroll
    } else {
        height
    }
}

/// The lines of loaded content that are on screen.
pub open spec fn loaded_lines(
    lines: Seq<Seq<char>>,
    scroll: u16,
    selection: Option<DetailSelection>,
    height: u16,
) -> Seq<LineModel> {
    Seq::new(
        shown_line_count(lines.len() as int, scroll as int, height as int) as nat,
        |i: int|
            content_line(lines[scroll + i], ((scroll + i) % 0x10000) as u16, selection),
    )
}

/// What is drawn of a Detail View: its content, or what is happening to it.
///
/// An empty view and a failed one are told apart deliberately: a container that
/// has logged nothing is not a broken one, and neither must read as the other.
pub open spec fn content_lines(
    provider_name: Seq<char>,
    details: ShownDetailsModel,
    height: u16,
) -> Seq<LineModel> {
    match details.content {
        ContentModel::Loading => seq![line("Loading "@ + details.title + "…"@, plain())],
        ContentModel::Ready(lines) => if forall|i: int|
            0 <= i < lines.len() ==> is_blank(#[trigger] lines[i]) {
            seq![
                line(
                    provider_name + " returned no "@ + details.title + " for "@
                        + details.resource_name,
                    themed(ThemeRole::Muted),
                ),
            ]
        } else {
            loaded_lines(lines, details.scroll, details.selection, height)
        },
        ContentModel::Error(message) => seq![
            line(
                provider_name + " "@ + details.title + " failed for "@ + details.resource_name
                    + ":"@,
                themed(ThemeRole::Error).bolded(),
            ),
            line(message, plain()),
        ],
    }
}

fn draw_loaded(
    lines: &Vec<String>,
    scroll: u16,
    selection: Option<DetailSelection>,
    height: u16,
) -> (drawn: Vec<Line>)
    ensures
        views(drawn@) == loaded_lines(views(lines@), scroll, selection, height),
{
    let first: usize = scroll as usize;
    let count: usize = if lines.len() <= first {
        0
    } else if lines.len() - first < height as usize {
        lines.len() - first
    } else {
        height as usize
    };
    let ghost all = loaded_lines(views(lines@), scroll, selection, height);
    let mut drawn: Vec<Line> = Vec::new();
    let mut i: usize = 0;
    assert(views(drawn@) =~= all.take(0));
    while i < count
        invariant
            i <= count,
            first == scroll,
            count == all.len(),
            count == 0 || first + count <= lines.len(),
            all == loaded_lines(views(lines@), scroll, selection, height),
            views(drawn@) == all.take(i as int),
        decreases count - i,
    {
        let index: usize = (first + i) % 0x10000;
        let made = detail_line(lines[first + i].as_str(), index as u16, selection);
        proof {
            assert(views(lines@)[first + i] == lines@[first + i]@);
            assert(made@ == all[i as int]);
        }
        push_line(&mut drawn, made);
        assert(all.take(i + 1) =~= all.take(i as int).push(all[i as int]));
        i = i + 1;
    }
    assert(all.take(i as int) =~= all);
    drawn
}

/// Draws the loaded detail view, or what is happening to it.
fn render_detail_content(provider_name: &str, details: &ResourceDetailsView<'_>, height: u16) -> (
    lines: Vec<Line>)
    ensures
        views(lines@) == content_lines(provider_name@, details@, height),
{
    match details.content {
        DetailContent::Loading => {
            let mut text = "Loading ".to_owned();
            text.append(details.title);
            text.append("…");
            one_line(Line::new(text.as_str(), TextStyle::plain()))
        },
        DetailContent::Ready(loaded) => {
            if loaded.is_empty() {
                let mut text = provider_name.to_owned();
                text.append(" returned no ");
                text.append(details.title);
                text.append(" for ");
                text.append(details.resource_name);
                one_line(Line::new(text.as_str(), TextStyle::themed(ThemeRole::Muted)))
            } else {
                draw_loaded(&loaded.lines, details.scroll, details.selection, height)
            }
        },
        DetailContent::Error(error) => {
            let mut text = provider_name.to_owned();
            text.append(" ");
            text.append(details.title);
            text.append(" failed for ");
            text.append(details.resource_name);
            text.append(":");
            two_lines(
                Line::new(text.as_str(), TextStyle::themed(ThemeRole::Error).bold()),
                Line::new(error.message.as_str(), TextStyle::plain()),
            )
        },
    }
}

/// The Command running for the selected Resource.
pub open spec fn running_here(view: WorkspaceViewModel, running: Seq<RunningModel>) -> Option<
    RunningModel,
> {
    match (view.focused_resource_panel, view.selected_resource) {
        (Some(panel_id), Some(resource)) => running_for(
            running,
            view.id,
            TargetModel { panel_id, resource_id: resource.id },
        ),
        _ => None,
    }
}

/// The style of a tab label.
pub open spec fn tab_style(selected: bool) -> TextStyle {
    if selected {
        themed(ThemeRole::Primary).bolded()
    } else {
        themed(ThemeRole::Muted)
    }
}

/// Which of the tabs is selected.
pub open spec fn tab_selected(view: WorkspaceViewModel, index: int) -> bool {
    if index == 0 {
        view.overview_selected
    } else if index - 1 < view.detail_views.len() {
        view.selected_detail_view matches Some(selected) && selected.id
            == view.detail_views[index - 1].id
    } else {
        view.shell_selected
    }
}

/// A text in one span, in a region of its own.
pub open spec fn label_drawing(area: Rect, text: Seq<char>, style: TextStyle) -> DrawingModel {
    bare(area, seq![LineModel { spans: seq![span(text, style)], style: plain() }], false)
}

/// The tabs of the selected Resource, each in its region.
pub open spec fn tab_drawings(view: WorkspaceViewModel, areas: Seq<Rect>) -> Seq<DrawingModel> {
    let labels = tab_labels(view);
    Seq::new(
        if labels.len() <= areas.len() {
            labels.len()
        } else {
            areas.len()
        },
        |i: int| label_drawing(areas[i], labels[i], tab_style(tab_selected(view, i))),
    )
}

/// What is drawn below the tabs of a selected Resource: what runs on it, its
/// Overview, or the Detail View.
pub open spec fn detail_drawings(
    provider_name: Seq<char>,
    view: WorkspaceViewModel,
    running: Seq<RunningModel>,
    content: Rect,
) -> Seq<DrawingModel> {
    match running_here(view, running) {
        Some(command) => seq![
            DrawingModel {
                area: content,
                widget: WidgetModel::Paragraph {
                    lines: seq![
                        line(
                            "Running "@ + resource_command_text(command.command) + " for "@
                                + command.resource_name + "…"@,
                            plain(),
                        ),
                    ],
                    frame: None,
                    wrap: false,
                    alignment: Alignment::Center,
                    style: themed(ThemeRole::Warning).bolded(),
                },
            },
        ],
        None => if view.overview_selected {
            seq![bare(content, overview_lines(view.selected_resource->0), true)]
        } else {
            match view.details {
                Some(details) => seq![
                    bare(content, content_lines(provider_name, details, content.height), false),
                ],
                None => Seq::empty(),
            }
        },
    }
}

/// Everything drawn of the Details Pane.
pub open spec fn details_drawings(
    provider_name: Seq<char>,
    view: Option<WorkspaceViewModel>,
    running: Seq<RunningModel>,
    focused: bool,
    hint: Option<Seq<char>>,
    panes: PanesModel,
) -> Seq<DrawingModel> {
    let frame = seq![
        DrawingModel {
            area: panes.details,
            widget: WidgetModel::Frame(
                pane_frame(title_text(hint, "Details"@, focused), focused, PaneChrome::Details),
            ),
        },
    ];
    match view {
        Some(view) => if view.selected_resource is Some {
            frame + detail_drawings(provider_name, view, running, panes.detail_content)
                + tab_drawings(view, panes.detail_views)
        } else {
            frame + seq![
                bare(panes.detail_content, seq![line("Select a resource"@, plain())], true),
            ]
        },
        None => frame + seq![
            bare(panes.detail_content, seq![line("No details available"@, plain())], true),
        ],
    }
}

fn render_tabs(view: &WorkspaceView<'_>, areas: &Vec<Rect>) -> (drawings: Vec<Drawing>)
    ensures
        views(drawings@) == tab_drawings(view@, areas@),
{
    let labels = detail_tab_labels(view);
    let ghost shown = view@;
    let ghost texts = tab_labels(shown);
    let ghost all = tab_drawings(shown, areas@);
    assert(labels.len() == texts.len());
    let count: usize = if labels.len() <= areas.len() {
        labels.len()
    } else {
        areas.len()
    };
    let mut drawings: Vec<Drawing> = Vec::new();
    let mut i: usize = 0;
    assert(views(drawings@) =~= all.take(0));
    while i < count
        invariant
            i <= count,
            count <= labels.len(),
            count <= areas.len(),
            count == all.len(),
            shown == view@,
            texts == tab_labels(shown),
            views(labels@) == texts,
            all == tab_drawings(shown, areas@),
            views(drawings@) == all.take(i as int),
        decreases count - i,
    {
        let selected = if i == 0 {
            view.overview_selected
        } else if i - 1 < view.detail_views.len() {
            assert(shown.detail_views[i - 1] == view.detail_views@[i - 1]@);
            match view.selected_detail_view {
                Some(selected) => selected.id.same(&view.detail_views[i - 1].id),
                None => false,
            }
        } else {
            view.shell_selected
        };
        let style = if selected {
            TextStyle::themed(ThemeRole::Primary).bold()
        } else {
            TextStyle::themed(ThemeRole::Muted)
        };
        assert(texts[i as int] == labels@[i as int]@);
        let drawing = Drawing::bare(
            areas[i],
            one_line(Line::of_span(labels[i].as_str(), style)),
            false,
        );
        assert(drawing@ == all[i as int]);
        draw(&mut drawings, drawing);
        assert(all.take(i + 1) =~= all.take(i as int).push(all[i as int]));
        i = i + 1;
    }
    assert(all.take(i as int) =~= all);
    drawings
}

fn running_on_selected<'a>(view: &WorkspaceView<'_>, running: &'a Vec<RunningResourceCommand>) -> (
    found: Option<&'a RunningResourceCommand>)
    ensures
        opt_view(found) == running_here(view@, views(running@)),
{
    match (view.focused_resource_panel, view.selected_resource) {
        (Some(panel_id), Some(resource)) => {
            let target = ResourceTarget::new(panel_id.clone(), resource.id.clone());
            find_running(running, view.id, &target)
        },
        _ => None,
    }
}

fn render_details(
    provider_name: &str,
    view: &WorkspaceView<'_>,
    resource: &Resource,
    running: &Vec<RunningResourceCommand>,
    content: Rect,
) -> (drawings: Vec<Drawing>)
    requires
        view@.selected_resource == Some(resource@),
    ensures
        views(drawings@) == detail_drawings(provider_name@, view@, views(running@), content),
{
    let mut drawings: Vec<Drawing> = Vec::new();
    assert(views(drawings@) =~= Seq::<DrawingModel>::empty());
    match running_on_selected(view, running) {
        Some(command) => {
            let mut text = "Running ".to_owned();
            text.append(command.command.as_str());
            text.append(" for ");
            text.append(command.resource_name.as_str());
            text.append("…");
            draw(
                &mut drawings,
                Drawing {
                    area: content,
                    widget: Widget::Paragraph {
                        lines: one_line(Line::new(text.as_str(), TextStyle::plain())),
                        frame: None,
                        wrap: false,
                        alignment: Alignment::Center,
                        style: TextStyle::themed(ThemeRole::Warning).bold(),
                    },
                },
            );
        },
        None => {
            if view.overview_selected {
                draw(&mut drawings, Drawing::bare(content, draw_overview(resource), true));
            } else {
                match &view.details {
                    Some(details) => {
                        let lines = render_detail_content(provider_name, details, content.height);
                        draw(&mut drawings, Drawing::bare(content, lines, false));
                    },
                    None => {},
                }
            }
        },
    }
    assert(views(drawings@) =~= detail_drawings(provider_name@, view@, views(running@), content));
    drawings
}

/// Draws the Details Pane.
fn render_details_panel(
    provider_name: &str,
    view: Option<&WorkspaceView<'_>>,
    running: &Vec<RunningResourceCommand>,
    focused: bool,
    hint: Option<&str>,
    panes: &WorkspacePanes,
) -> (drawings: Vec<Drawing>)
    ensures
        views(drawings@) == details_drawings(
            provider_name@,
            opt_view(view),
            views(running@),
            focused,
            opt_view(hint),
            panes@,
        ),
{
    let mut drawings: Vec<Drawing> = Vec::new();
    assert(views(drawings@) =~= Seq::<DrawingModel>::empty());
    let frame = pane_block(pane_title(hint, "Details", focused), focused, PaneChrome::Details);
    draw(&mut drawings, Drawing { area: panes.details, widget: Widget::Frame(frame) });
    match view {
        Some(view) => match view.selected_resource {
            Some(resource) => {
                draw_all(
                    &mut drawings,
                    render_details(provider_name, view, resource, running, panes.detail_content),
                );
                draw_all(&mut drawings, render_tabs(view, &panes.detail_views));
            },
            None => draw(
                &mut drawings,
                Drawing::bare(
                    panes.detail_content,
                    one_line(Line::new("Select a resource", TextStyle::plain())),
                    true,
                ),
            ),
        },
        None => draw(
            &mut drawings,
            Drawing::bare(
                panes.detail_content,
                one_line(Line::new("No details available", TextStyle::plain())),
                true,
            ),
        ),
    }
    assert(views(drawings@) =~= details_drawings(
        provider_name@,
        opt_view(view),
        views(running@),
        focused,
        opt_view(hint),
        panes@,
    ));
    drawings
}

/// One key of the footer and what it does.
pub open spec fn footer_spans(entries: Seq<HelpEntryModel>) -> Seq<SpanModel>
    decreases entries.len(),
{
    if entries.len() == 0 {
        Seq::empty()
    } else {
        footer_spans(entries.drop_last()) + seq![
            span(" "@ + entries.last().key + " "@, badge()),
            span(" "@ + entries.last().description + "  "@, plain()),
        ]
    }
}

/// The footer: the available Commands, and how to see them all.
pub open spec fn footer(state: StateModel, area: Rect) -> DrawingModel {
    bare(
        area,
        seq![
            LineModel {
                spans: footer_spans(state.command_bar) + seq![
                    span(" ? "@, badge()),
                    span(" all commands"@, plain()),
                ],
                style: plain(),
            },
        ],
        false,
    )
}

/// Draws the footer.
fn render_command_bar(state: &AppState, area: Rect) -> (drawing: Drawing)
    ensures
        drawing@ == footer(state@, area),
{
    let ghost all = views(state.command_bar@);
    let mut spans: Vec<Span> = Vec::new();
    let mut i: usize = 0;
    assert(views(spans@) =~= Seq::<SpanModel>::empty());
    while i < state.command_bar.len()
        invariant
            i <= state.command_bar.len(),
            all == views(state.command_bar@),
            views(spans@) == footer_spans(all.take(i as int)),
        decreases state.command_bar.len() - i,
    {
        let entry = &state.command_bar[i];
        let ghost before = views(spans@);
        let mut key = " ".to_owned();
        key.append(entry.key.as_str());
        key.append(" ");
        push_span(&mut spans, key.as_str(), TextStyle::badge());
        let mut description = " ".to_owned();
        description.append(entry.description.as_str());
        description.append("  ");
        push_span(&mut spans, description.as_str(), TextStyle::plain());
        proof {
            assert(all.take(i + 1).drop_last() =~= all.take(i as int));
            assert(all.take(i + 1).last() == entry@);
            assert(views(spans@) =~= footer_spans(all.take(i + 1)));
        }
        i = i + 1;
    }
    assert(all.take(i as int) =~= all);
    push_span(&mut spans, " ? ", TextStyle::badge());
    push_span(&mut spans, " all commands", TextStyle::plain());
    let made = Line { spans, style: TextStyle::plain() };
    assert(made@.spans =~= footer_spans(all) + seq![
        span(" ? "@, badge()),
        span(" all commands"@, plain()),
    ]);
    Drawing::bare(area, one_line(made), false)
}

/// The style of a Provider Workspace label.
pub open spec fn workspace_style(active: bool) -> TextStyle {
    if active {
        badge()
    } else {
        themed(ThemeRole::Muted)
    }
}

/// The Provider Workspace labels, each in its region.
pub open spec fn provider_drawings(state: StateModel, areas: Seq<Rect>) -> Seq<DrawingModel> {
    Seq::new(
        if state.providers.len() <= areas.len() {
            state.providers.len()
        } else {
            areas.len()
        },
        |i: int|
            {
                let active = state.active_provider == Some(i as usize);
                label_drawing(
                    areas[i],
                    workspace_label(state.providers[i], active),
                    workspace_style(active),
                )
            },
    )
}

/// Everything drawn in the provider bar. Its label gives way to the Provider
/// Workspaces as soon as one was discovered.
pub open spec fn bar_drawings(state: StateModel, layout: LayoutModel) -> Seq<DrawingModel> {
    (if state.providers.len() == 0 {
        seq![
            label_drawing(
                layout.provider_bar,
                selector_label(state),
                title_style(state.focused_pane == FocusedPane::Providers),
            ),
        ]
    } else {
        Seq::empty()
    }) + provider_drawings(state, layout.provider_workspaces) + (match (
        target_label(state),
        layout.active_target,
    ) {
        (Some(target), Some(area)) => seq![
            DrawingModel {
                area,
                widget: WidgetModel::Paragraph {
                    lines: seq![
                        LineModel {
                            spans: seq![span(target, themed(ThemeRole::Muted))],
                            style: plain(),
                        },
                    ],
                    frame: None,
                    wrap: false,
                    alignment: Alignment::Right,
                    style: plain(),
                },
            },
        ],
        _ => Seq::empty(),
    })
}

fn render_providers(state: &AppState, areas: &Vec<Rect>) -> (drawings: Vec<Drawing>)
    ensures
        views(drawings@) == provider_drawings(state@, areas@),
{
    let count: usize = if state.providers.len() <= areas.len() {
        state.providers.len()
    } else {
        areas.len()
    };
    let ghost all = provider_drawings(state@, areas@);
    let mut drawings: Vec<Drawing> = Vec::new();
    let mut i: usize = 0;
    assert(views(drawings@) =~= all.take(0));
    while i < count
        invariant
            i <= count,
            count <= state.providers.len(),
            count <= areas.len(),
            count == all.len(),
            all == provider_drawings(state@, areas@),
            views(drawings@) == all.take(i as int),
        decreases count - i,
    {
        let active = match state.active_provider {
            Some(active) => active == i,
            None => false,
        };
        let style = if active {
            TextStyle::badge()
        } else {
            TextStyle::themed(ThemeRole::Muted)
        };
        assert(state@.providers[i as int] == state.providers@[i as int]@);
        let label = provider_workspace_label(&state.providers[i], active);
        let drawing = Drawing::bare(
            areas[i],
            one_line(Line::of_span(label.as_str(), style)),
            false,
        );
        assert(drawing@ == all[i as int]);
        draw(&mut drawings, drawing);
        assert(all.take(i + 1) =~= all.take(i as int).push(all[i as int]));
        i = i + 1;
    }
    assert(all.take(i as int) =~= all);
    drawings
}

/// Draws the provider bar.
fn render_provider_bar(state: &AppState, layout: &ScreenLayout) -> (drawings: Vec<Drawing>)
    ensures
        views(drawings@) == bar_drawings(state@, layout@),
{
    let mut drawings: Vec<Drawing> = Vec::new();
    assert(views(drawings@) =~= Seq::<DrawingModel>::empty());
    if state.providers.len() == 0 {
        let selector = provider_selector_label(state);
        let style = panel_title_style(state.focused_pane == FocusedPane::Providers);
        draw(
            &mut drawings,
            Drawing::bare(
                layout.provider_bar,
                one_line(Line::of_span(selector.as_str(), style)),
                false,
            ),
        );
    }
    draw_all(&mut drawings, render_providers(state, &layout.provider_workspaces));
    match (active_target_label(state), layout.active_target) {
        (Some(target), Some(area)) => draw(
            &mut drawings,
            Drawing {
                area,
                widget: Widget::Paragraph {
                    lines: one_line(
                        Line::of_span(target.as_str(), TextStyle::themed(ThemeRole::Muted)),
                    ),
                    frame: None,
                    wrap: false,
                    alignment: Alignment::Right,
                    style: TextStyle::plain(),
                },
            },
        ),
        _ => {},
    }
    assert(views(drawings@) =~= bar_drawings(state@, layout@));
    drawings
}

/// A modal over a blanked region.
pub open spec fn modal(
    area: Rect,
    lines: Seq<LineModel>,
    frame: FrameModel,
    wrap: bool,
) -> Seq<DrawingModel> {
    seq![DrawingModel { area, widget: WidgetModel::Clear }, framed(area, lines, frame, wrap)]
}

fn draw_modal(area: Rect, lines: Vec<Line>, frame: Frame, wrap: bool) -> (drawings: Vec<Drawing>)
    ensures
        views(drawings@) == modal(area, views(lines@), frame@, wrap),
{
    let mut drawings: Vec<Drawing> = Vec::new();
    draw(&mut drawings, Drawing { area, widget: Widget::Clear });
    draw(&mut drawings, Drawing::framed(area, lines, frame, wrap));
    assert(views(drawings@) =~= modal(area, views(lines@), frame@, wrap));
    drawings
}

/// Every Command that help lists, one a line.
pub open spec fn help_lines(help: HelpModel) -> Seq<LineModel> {
    help.entries.map_values(
        |entry: HelpEntryModel| line(entry.key + "  "@ + entry.description, plain()),
    )
}

pub open spec fn help_drawings(state: StateModel, area: Rect) -> Seq<DrawingModel> {
    match (state.help_overlay, help_region(state, area)) {
        (Some(help), Some(region)) => modal(
            region,
            help_lines(help),
            modal_frame(" Commands for "@ + help.target + " "@, ThemeRole::Primary),
            false,
        ),
        _ => Seq::empty(),
    }
}

fn no_drawings() -> (drawings: Vec<Drawing>)
    ensures
        views(drawings@) == Seq::<DrawingModel>::empty(),
{
    let drawings: Vec<Drawing> = Vec::new();
    assert(views(drawings@) =~= Seq::<DrawingModel>::empty());
    drawings
}

fn render_help(state: &AppState, area: Rect) -> (drawings: Vec<Drawing>)
    ensures
        views(drawings@) == help_drawings(state@, area),
{
    match (&state.help_overlay, help_overlay_area(state, area)) {
        (Some(help), Some(region)) => {
            let ghost all = help_lines(help@);
            let mut lines: Vec<Line> = Vec::new();
            let mut i: usize = 0;
            assert(views(lines@) =~= all.take(0));
            while i < help.entries.len()
                invariant
                    i <= help.entries.len(),
                    all == help_lines(help@),
                    views(lines@) == all.take(i as int),
                decreases help.entries.len() - i,
            {
                let entry = &help.entries[i];
                assert(help@.entries[i as int] == entry@);
                let mut text = entry.key.clone();
                text.append("  ");
                text.append(entry.description.as_str());
                let made = Line::new(text.as_str(), TextStyle::plain());
                assert(made@ == all[i as int]);
                push_line(&mut lines, made);
                assert(all.take(i + 1) =~= all.take(i as int).push(all[i as int]));
                i = i + 1;
            }
            assert(all.take(i as int) =~= all);
            let mut title = " Commands for ".to_owned();
            title.append(help.target.as_str());
            title.append(" ");
            draw_modal(region, lines, modal_block(title, ThemeRole::Primary), false)
        },
        _ => no_drawings(),
    }
}

pub open spec fn error_drawings(state: StateModel, area: Rect) -> Seq<DrawingModel> {
    match (state.command_error, error_region(state, area)) {
        (Some(error), Some(region)) => modal(
            region,
            seq![
                line(error, themed(ThemeRole::Error)),
                line("Press Esc to dismiss."@, plain()),
            ],
            modal_frame(" Command failed "@, ThemeRole::Error),
            true,
        ),
        _ => Seq::empty(),
    }
}

fn render_error(state: &AppState, area: Rect) -> (drawings: Vec<Drawing>)
    ensures
        views(drawings@) == error_drawings(state@, area),
{
    match (&state.command_error, command_error_area(state, area)) {
        (Some(error), Some(region)) => {
            let lines = two_lines(
                Line::new(error.as_str(), TextStyle::themed(ThemeRole::Error)),
                Line::new("Press Esc to dismiss.", TextStyle::plain()),
            );
            draw_modal(
                region,
                lines,
                modal_block(" Command failed ".to_owned(), ThemeRole::Error),
                true,
            )
        },
        _ => no_drawings(),
    }
}

/// What a deletion asks.
///
/// Deleting anything but a stopped Resource stops it first, so the question
/// says so before the single confirmation that authorises both. The wording
/// stays on the outcome: a paused or restarting Resource is not running, but
/// removing it still stops it.
pub open spec fn confirmation_lines(invocation: InvocationModel) -> Seq<LineModel> {
    seq![
        line(
            "Delete "@ + invocation.provider_name + " resource "@ + invocation.resource_name + " ("@
                + invocation.target.resource_id + ")?"@,
            plain(),
        ),
    ] + (match invocation.state {
        Some(ResourceState::Stopped) => Seq::empty(),
        Some(_) => seq![line("It will be stopped and removed."@, plain())],
        None => seq![line("It will be permanently removed."@, plain())],
    }) + seq![line("Press y/Enter to confirm or n/Esc to cancel."@, plain())]
}

pub open spec fn confirmation_drawings(state: StateModel, area: Rect) -> Seq<DrawingModel> {
    match (state.confirmation, confirmation_region(state, area)) {
        (Some(invocation), Some(region)) => modal(
            region,
            confirmation_lines(invocation),
            modal_frame(" Confirm deletion "@, ThemeRole::Warning),
            false,
        ),
        _ => Seq::empty(),
    }
}

fn render_confirmation(state: &AppState, area: Rect) -> (drawings: Vec<Drawing>)
    ensures
        views(drawings@) == confirmation_drawings(state@, area),
{
    match (&state.confirmation, confirmation_area(state, area)) {
        (Some(invocation), Some(region)) => {
            let mut question = "Delete ".to_owned();
            question.append(invocation.provider_name.as_str());
            question.append(" resource ");
            question.append(invocation.resource_name.as_str());
            question.append(" (");
            question.append(invocation.target.as_str());
            question.append(")?");
            let mut lines = one_line(Line::new(question.as_str(), TextStyle::plain()));
            match invocation.state {
                Some(ResourceState::Stopped) => {},
                Some(_) => push_line(
                    &mut lines,
                    Line::new("It will be stopped and removed.", TextStyle::plain()),
                ),
                None => push_line(
                    &mut lines,
                    Line::new("It will be permanently removed.", TextStyle::plain()),
                ),
            }
            push_line(
                &mut lines,
                Line::new("Press y/Enter to confirm or n/Esc to cancel.", TextStyle::plain()),
            );
            assert(views(lines@) =~= confirmation_lines(invocation@));
            draw_modal(
                region,
                lines,
                modal_block(" Confirm deletion ".to_owned(), ThemeRole::Warning),
                false,
            )
        },
        _ => no_drawings(),
    }
}

/// Everything drawn of the Active Workspace, and the modals over it.
pub open spec fn active_drawings(
    state: StateModel,
    name: Seq<char>,
    presentation: PresentationModel,
    panes: PanesModel,
    area: Rect,
) -> Seq<DrawingModel> {
    workspace_drawings(
        presentation,
        state.focused_pane == FocusedPane::Resources,
        state.hints.focus_resource_panels,
        state.running_commands,
        panes,
    ) + details_drawings(
        name,
        match presentation {
            PresentationModel::Ready(view) => Some(view),
            _ => None,
        },
        state.running_commands,
        state.focused_pane == FocusedPane::Details,
        state.hints.focus_details,
        panes,
    ) + help_drawings(state, area) + error_drawings(state, area) + confirmation_drawings(
        state,
        area,
    )
}

/// Everything drawn before a Provider was discovered.
pub open spec fn empty_drawings(area: Rect) -> Seq<DrawingModel> {
    seq![
        framed(
            area,
            seq![line("No providers discovered"@, plain())],
            FrameModel {
                title: " Workspace "@,
                borders: chrome_borders(PaneChrome::Full),
                accent: plain(),
                surface: plain(),
            },
            false,
        ),
    ]
}

/// Everything drawn on a screen, first to last.
pub open spec fn screen_drawings(state: StateModel, layout: LayoutModel, area: Rect) -> Seq<
    DrawingModel,
> {
    bar_drawings(state, layout) + seq![footer(state, layout.status)] + (match (
        state.active_workspace(),
        layout.panes,
    ) {
        (Some(workspace), Some(panes)) => active_drawings(
            state,
            workspace.provider.name,
            workspace.presented(),
            panes,
            area,
        ),
        _ => empty_drawings(layout.workspace),
    })
}

fn render_active(
    state: &AppState,
    name: &str,
    presentation: &WorkspacePresentation<'_>,
    panes: &WorkspacePanes,
    area: Rect,
) -> (drawings: Vec<Drawing>)
    ensures
        views(drawings@) == active_drawings(state@, name@, presentation@, panes@, area),
{
    let view = match presentation {
        WorkspacePresentation::Ready(view) => Some(view),
        _ => None,
    };
    let details_hint = match &state.hints.focus_details {
        Some(key) => Some(key.as_str()),
        None => None,
    };
    let mut drawings = render_workspace_panel(
        presentation,
        state.focused_pane == FocusedPane::Resources,
        &state.hints.focus_resource_panels,
        &state.running_commands,
        panes,
    );
    let details = render_details_panel(
        name,
        view,
        &state.running_commands,
        state.focused_pane == FocusedPane::Details,
        details_hint,
        panes,
    );
    draw_all(&mut drawings, details);
    draw_all(&mut drawings, render_help(state, area));
    draw_all(&mut drawings, render_error(state, area));
    draw_all(&mut drawings, render_confirmation(state, area));
    drawings
}

/// Draws the screen into the regions already measured for it.
///
/// The host measures once per frame and keeps that layout for mouse routing, so
/// what the user clicks is what they see.
pub fn render_with_layout(state: &AppState, layout: &ScreenLayout, area: Rect) -> (drawings: Vec<
    Drawing,
>)
    ensures
        views(drawings@) == screen_drawings(state@, layout@, area),
{
    let mut drawings = render_provider_bar(state, layout);
    draw(&mut drawings, render_command_bar(state, layout.status));
    let ghost begun = views(drawings@);
    match (state.active_workspace(), &layout.panes) {
        (Some(provider), Some(panes)) => {
            let presentation = provider.presentation();
            draw_all(
                &mut drawings,
                render_active(state, provider.name(), &presentation, panes, area),
            );
        },
        _ => {
            let frame = Frame {
                title: " Workspace ".to_owned(),
                borders: PaneChrome::Full.borders(),
                accent: TextStyle::plain(),
                surface: TextStyle::plain(),
            };
            draw(
                &mut drawings,
                Drawing::framed(
                    layout.workspace,
                    one_line(Line::new("No providers discovered", TextStyle::plain())),
                    frame,
                    false,
                ),
            );
        },
    }
    assert(views(drawings@) =~= screen_drawings(state@, layout@, area));
    drawings
}

/// Measures a screen and draws the state on it.
pub fn render(state: &AppState, area: Rect) -> (drawings: Vec<Drawing>)
    ensures
        exists|divisions: DivisionsModel| #[trigger]
            divisions.fits(state@, area) && views(drawings@) == screen_drawings(
                state@,
                arranged(state@, area, divisions),
                area,
            ),
{
    let layout = ScreenLayout::measure(state, area);
    render_with_layout(state, &layout, area)
}

} // verus!
