//! Where everything sits on screen, worked out once.
//!
//! Drawing and mouse routing both read this, so a region can never disagree
//! with the text drawn inside it. Nothing here knows about the mouse.
//! Coordinates past the last column or row that can be named are held there.

use vstd::prelude::*;
use vstd::string::*;

use super::geometry::{
    bottom_of, divides, end_of, extent, held, inside, min_u16, one_grows, rect, right_of, smaller,
    spans, split, start_of, total_wanted, two_shares, Borders, Constraint, Direction, Rect,
};
use crate::application::app::state::{AppState, FocusedPane, StateModel};
use crate::application::command::defaults::NUMBERED_RESOURCE_PANEL_CAPACITY;
use crate::application::provider::{DetailView, DetailViewModel};
use crate::application::shell::ResourceShellPresentation;
use crate::application::workspace::model::WorkspaceModel;
use crate::application::workspace::view::{
    PanelViewModel, PresentationModel, ResourcePanelView, WorkspacePresentation, WorkspaceView,
    WorkspaceViewModel,
};
use crate::application::workspace::ProviderWorkspaceState;
use crate::steps::clamped;
use crate::text::{opt_view, views};

verus! {

/// Blank columns between the Providers Pane label and the first Provider
/// Workspace.
pub const PROVIDER_LABEL_GAP: u16 = 2;

/// Blank columns between one Provider Workspace and the next.
pub const PROVIDER_WORKSPACE_GAP: u16 = 3;

/// Blank columns between one Detail View label and the next.
pub const DETAIL_VIEW_GAP: u16 = 2;

/// The borders of a Pane.
#[derive(Clone, Copy, Debug, PartialEq, Eq, Structural)]
pub enum PaneChrome {
    Resource,
    Details,
    Full,
}

/// The sides on which a Pane has a border: the Resource Panels and the Details
/// Pane leave out the one between them and the screen's edge.
pub open spec fn chrome_borders(chrome: PaneChrome) -> Borders {
    match chrome {
        PaneChrome::Resource => Borders { left: false, right: true, top: true, bottom: true },
        PaneChrome::Details => Borders { left: true, right: false, top: true, bottom: true },
        PaneChrome::Full => Borders { left: true, right: true, top: true, bottom: true },
    }
}

impl PaneChrome {
    pub fn borders(&self) -> (borders: Borders)
        ensures
            borders == chrome_borders(*self),
    {
        match self {
            PaneChrome::Resource => Borders { left: false, right: true, top: true, bottom: true },
            PaneChrome::Details => Borders { left: true, right: false, top: true, bottom: true },
            PaneChrome::Full => Borders { left: true, right: true, top: true, bottom: true },
        }
    }
}

/// Where a visible Resource Shell Session is drawn, and the part of it that is
/// its terminal.
#[derive(Clone, Copy, Debug, PartialEq, Eq, Structural)]
pub struct ResourceShellArea {
    pub area: Rect,
    pub terminal: Rect,
}

/// Every region of the screen.
#[derive(Debug, PartialEq, Eq)]
pub struct ScreenLayout {
    /// The three horizontal bands: the provider bar, the Active Workspace, and
    /// the footer.
    pub provider_bar: Rect,
    pub workspace: Rect,
    pub status: Rect,
    /// The Providers Pane label inside the provider bar.
    pub provider_selector: Rect,
    /// What is left of the provider bar for naming the active Target
    /// Environment.
    pub active_target: Option<Rect>,
    /// One region per Provider Workspace, in the order they are drawn.
    pub provider_workspaces: Vec<Rect>,
    /// Absent until a Provider Workspace is active.
    pub panes: Option<WorkspacePanes>,
    /// The region the topmost modal owns, when one is open.
    pub overlay: Option<Rect>,
    /// The region of the visible Resource Shell Session, when there is one.
    pub resource_shell: Option<ResourceShellArea>,
}

/// The Panes of the Active Workspace, and the rows and Detail Views inside them.
#[derive(Debug, PartialEq, Eq)]
pub struct WorkspacePanes {
    pub resources: Rect,
    /// One region per Resource Panel, in the order they are drawn.
    pub resource_panels: Vec<Rect>,
    /// Per Resource Panel, the visible rows paired with the Resource each one
    /// shows. Scrolling means a row's position is not its Resource index.
    pub resource_rows: Vec<Vec<(usize, Rect)>>,
    pub details: Rect,
    /// What is left of the Details Pane for the selected tab.
    pub detail_content: Rect,
    /// One region per Detail View label, in the order they are drawn.
    pub detail_views: Vec<Rect>,
    /// The columns by which the Pane Boundary can be taken hold of.
    pub pane_boundary: Rect,
}

/// What a [`ScreenLayout`] holds.
#[verifier::ext_equal]
pub struct LayoutModel {
    pub provider_bar: Rect,
    pub workspace: Rect,
    pub status: Rect,
    pub provider_selector: Rect,
    pub active_target: Option<Rect>,
    pub provider_workspaces: Seq<Rect>,
    pub panes: Option<PanesModel>,
    pub overlay: Option<Rect>,
    pub resource_shell: Option<ResourceShellArea>,
}

/// What [`WorkspacePanes`] hold.
#[verifier::ext_equal]
pub struct PanesModel {
    pub resources: Rect,
    pub resource_panels: Seq<Rect>,
    pub resource_rows: Seq<Seq<(usize, Rect)>>,
    pub details: Rect,
    pub detail_content: Rect,
    pub detail_views: Seq<Rect>,
    pub pane_boundary: Rect,
}

pub open spec fn rows_view(rows: Seq<Vec<(usize, Rect)>>) -> Seq<Seq<(usize, Rect)>> {
    rows.map_values(|row: Vec<(usize, Rect)>| row@)
}

impl View for WorkspacePanes {
    type V = PanesModel;

    open spec fn view(&self) -> PanesModel {
        PanesModel {
            resources: self.resources,
            resource_panels: self.resource_panels@,
            resource_rows: rows_view(self.resource_rows@),
            details: self.details,
            detail_content: self.detail_content,
            detail_views: self.detail_views@,
            pane_boundary: self.pane_boundary,
        }
    }
}

impl View for ScreenLayout {
    type V = LayoutModel;

    open spec fn view(&self) -> LayoutModel {
        LayoutModel {
            provider_bar: self.provider_bar,
            workspace: self.workspace,
            status: self.status,
            provider_selector: self.provider_selector,
            active_target: self.active_target,
            provider_workspaces: self.provider_workspaces@,
            panes: opt_view(self.panes),
            overlay: self.overlay,
            resource_shell: self.resource_shell,
        }
    }
}

/// The number of columns a label takes, counted in sixteen bits.
pub open spec fn width_of(label: Seq<char>) -> u16 {
    (label.len() % 0x10000) as u16
}

/// The Providers Pane label.
pub open spec fn selector_label(state: StateModel) -> Seq<char> {
    let label = match state.hints.focus_providers {
        Some(key) => "["@ + key + "] Providers"@,
        None => "Providers"@,
    };
    if state.focused_pane == FocusedPane::Providers {
        "▶ "@ + label
    } else {
        label
    }
}

/// One Provider Workspace label.
pub open spec fn workspace_label(workspace: WorkspaceModel, active: bool) -> Seq<char> {
    if !active {
        workspace.provider.name
    } else {
        match workspace.provider.target_environment {
            Some(target) => "[ "@ + workspace.provider.name + " · "@ + target + " ]"@,
            None => "[ "@ + workspace.provider.name + " ]"@,
        }
    }
}

/// One Detail View label.
pub open spec fn tab_label(title: Seq<char>, selected: bool) -> Seq<char> {
    if selected {
        "[ "@ + title + " ]"@
    } else {
        title
    }
}

/// Every Provider Workspace label.
pub open spec fn workspace_labels(state: StateModel) -> Seq<Seq<char>> {
    Seq::new(
        state.providers.len(),
        |i: int| workspace_label(state.providers[i], state.active_provider == Some(i as usize)),
    )
}

/// Every tab label of the selected Resource.
pub open spec fn tab_labels(view: WorkspaceViewModel) -> Seq<Seq<char>> {
    if view.selected_resource is None {
        Seq::empty()
    } else {
        seq![tab_label("Overview"@, view.overview_selected)] + view.detail_views.map_values(
            |declared: DetailViewModel|
                tab_label(
                    declared.title,
                    view.selected_detail_view matches Some(selected) && selected.id == declared.id,
                ),
        ) + (if view.shell_offered {
            seq![tab_label("Shell"@, view.shell_selected)]
        } else {
            Seq::empty()
        })
    }
}

/// Where labels drawn in a row leave off, before the gap to the next.
pub open spec fn label_end(labels: Seq<Seq<char>>, x: u16, gap: u16, count: int) -> u16
    decreases count, 0int,
{
    if count <= 0 {
        x
    } else {
        held(label_start(labels, x, gap, count - 1) + width_of(labels[count - 1]))
    }
}

/// Where one of several labels drawn in a row begins.
pub open spec fn label_start(labels: Seq<Seq<char>>, x: u16, gap: u16, index: int) -> u16
    decreases index, 1int,
{
    if index <= 0 {
        x
    } else {
        held(label_end(labels, x, gap, index) + gap)
    }
}

/// The regions of labels drawn in a row.
pub open spec fn label_regions(labels: Seq<Seq<char>>, x: u16, y: u16, gap: u16) -> Seq<Rect> {
    Seq::new(
        labels.len(),
        |i: int| rect(label_start(labels, x, gap, i), y, width_of(labels[i]), 1),
    )
}

/// A region in the middle of another, as large as wanted and as there is room.
pub open spec fn centered(width: u16, height: u16, area: Rect) -> Rect {
    Rect {
        x: held(area.x + held(area.width - width) / 2),
        y: held(area.y + held(area.height - height) / 2),
        width: smaller(width, area.width),
        height: smaller(height, area.height),
    }
}

/// The region of the help overlay.
pub open spec fn help_region(state: StateModel, area: Rect) -> Option<Rect> {
    match state.help_overlay {
        Some(help) => {
            let rows = held((help.entries.len() % 0x10000) as int + 2);
            Some(
                centered(
                    42,
                    if rows < 4 {
                        4
                    } else {
                        rows
                    },
                    area,
                ),
            )
        },
        None => None,
    }
}

/// How many lines a width takes in rows of another width.
pub open spec fn lines_needed(width: u16, row: u16) -> int {
    if row == 0 {
        0
    } else {
        (width + row - 1) / (row as int)
    }
}

/// The region of a reported failure: as wide as its message where there is
/// room, and otherwise as high as the wrapped message needs.
pub open spec fn error_region(state: StateModel, area: Rect) -> Option<Rect> {
    match state.command_error {
        Some(error) => {
            let message = width_of(error);
            let width = smaller(held(message + 4), area.width);
            let row = if width <= 2 {
                1u16
            } else {
                (width - 2) as u16
            };
            Some(centered(width, held(lines_needed(message, row) + 3), area))
        },
        None => None,
    }
}

/// The region of a question.
pub open spec fn confirmation_region(state: StateModel, area: Rect) -> Option<Rect> {
    match state.confirmation {
        Some(_) => Some(centered(64, 5, area)),
        None => None,
    }
}

/// The region of whichever modal is drawn last, and so sits on top.
pub open spec fn overlay_region(state: StateModel, area: Rect) -> Option<Rect> {
    if state.confirmation is Some {
        confirmation_region(state, area)
    } else if state.command_error is Some {
        error_region(state, area)
    } else {
        help_region(state, area)
    }
}

/// The first Resource that a panel shows: as few rows down as keep the selected
/// one on screen.
pub open spec fn first_visible(selected: int, height: int, count: int) -> int {
    let shown = if height < count {
        height
    } else {
        count
    };
    if shown <= 0 {
        0
    } else {
        clamped(clamped(selected, 0, count - 1) + 1 - shown, 0, count - shown)
    }
}

/// How many Resources a panel shows.
pub open spec fn visible_count(height: int, count: int) -> int {
    if height < count {
        height
    } else {
        count
    }
}

/// The rows of one panel, each with the Resource it shows.
pub open spec fn panel_rows(panel: PanelViewModel, area: Rect) -> Seq<(usize, Rect)> {
    let inner = inside(area, chrome_borders(PaneChrome::Resource));
    let count = panel.panel.resources.len() as int;
    let height = held(area.height - 2) as int;
    let start = first_visible(panel.selected_index, height, count);
    Seq::new(
        visible_count(height, count) as nat,
        |i: int| ((start + i) as usize, rect(inner.x, held(inner.y + i), inner.width, 1)),
    )
}

/// The columns by which the Pane Boundary can be taken hold of: the last of the
/// Resource Panels and the first of the Details Pane.
pub open spec fn boundary_region(resources: Rect) -> Rect {
    rect(held(right_of(resources) - 1), resources.y, 2, resources.height)
}

/// How the height of the Resource Panels is shared: in proportion to what each
/// has to show, so a busy panel is not squeezed to make room for an empty one.
pub open spec fn panel_constraints(panels: Seq<PanelViewModel>) -> Seq<Constraint> {
    panels.map_values(
        |panel: PanelViewModel|
            Constraint::Fill(
                if panel.panel.resources.len() == 0 {
                    1
                } else {
                    (panel.panel.resources.len() % 0x10000) as u16
                },
            ),
    )
}

/// The rectangles that a layout is made of, as they were divided.
pub struct Divisions {
    /// The provider bar, the Active Workspace, and the footer.
    pub bands: Vec<Rect>,
    /// The Resource Panels and the Details Pane.
    pub columns: Vec<Rect>,
    /// The Resource Panels one below the other.
    pub panels: Vec<Rect>,
    /// The tabs of the Details Pane and what is below them.
    pub details: Vec<Rect>,
}

/// What [`Divisions`] hold.
#[verifier::ext_equal]
pub struct DivisionsModel {
    pub bands: Seq<Rect>,
    pub columns: Seq<Rect>,
    pub panels: Seq<Rect>,
    pub details: Seq<Rect>,
}

impl View for Divisions {
    type V = DivisionsModel;

    open spec fn view(&self) -> DivisionsModel {
        DivisionsModel {
            bands: self.bands@,
            columns: self.columns@,
            panels: self.panels@,
            details: self.details@,
        }
    }
}

/// The panels of the Active Workspace, while it is ready.
pub open spec fn active_view(state: StateModel) -> Option<WorkspaceViewModel> {
    match state.active_workspace() {
        Some(workspace) => match workspace.presented() {
            PresentationModel::Ready(view) => Some(view),
            _ => None,
        },
        None => None,
    }
}

/// The panels that are drawn.
pub open spec fn drawn_panels(state: StateModel) -> Seq<PanelViewModel> {
    match active_view(state) {
        Some(view) => view.panels,
        None => Seq::empty(),
    }
}

/// Whether the Details Pane has tabs: it has while a Resource is selected.
pub open spec fn has_tabs(state: StateModel) -> bool {
    active_view(state) matches Some(view) && view.selected_resource is Some
}

impl DivisionsModel {
    /// Whether the rectangles divide one another as a layout of the state on a
    /// screen needs them.
    #[verifier::opaque]
    pub open spec fn fits(self, state: StateModel, area: Rect) -> bool {
        &&& divides(self.bands, Direction::Vertical, band_constraints(), area)
        &&& divides(
            self.columns,
            Direction::Horizontal,
            column_constraints(state.pane_boundary.percent),
            self.bands[1],
        )
        &&& divides(
            self.panels,
            Direction::Vertical,
            panel_constraints(drawn_panels(state)),
            self.columns[0],
        )
        &&& divides(
            self.details,
            Direction::Vertical,
            detail_constraints(has_tabs(state)),
            inside(self.columns[1], chrome_borders(PaneChrome::Details)),
        )
    }
}

/// A row for the provider bar, a row for the footer, and the rest for the
/// Active Workspace.
pub open spec fn band_constraints() -> Seq<Constraint> {
    seq![Constraint::Length(1), Constraint::Min(1), Constraint::Length(1)]
}

/// The share of the Resource Panels, and the rest for the Details Pane.
pub open spec fn column_constraints(percent: int) -> Seq<Constraint> {
    seq![
        Constraint::Percentage(percent as u16),
        Constraint::Percentage((100 - percent) as u16),
    ]
}

/// A row for the tabs of the Details Pane, if it has any, and the rest for what
/// the selected one shows.
pub open spec fn detail_constraints(tabs: bool) -> Seq<Constraint> {
    seq![
        Constraint::Length(
            if tabs {
                1
            } else {
                0
            },
        ),
        Constraint::Min(0),
    ]
}

/// The Panes that divisions give.
pub open spec fn arranged_panes(state: StateModel, divisions: DivisionsModel) -> PanesModel {
    let panels = drawn_panels(state);
    PanesModel {
        resources: divisions.columns[0],
        resource_panels: divisions.panels,
        resource_rows: Seq::new(
            panels.len(),
            |i: int| panel_rows(panels[i], divisions.panels[i]),
        ),
        details: divisions.columns[1],
        detail_content: divisions.details[1],
        detail_views: match active_view(state) {
            Some(view) => label_regions(
                tab_labels(view),
                divisions.details[0].x,
                divisions.details[0].y,
                DETAIL_VIEW_GAP,
            ),
            None => Seq::empty(),
        },
        pane_boundary: boundary_region(divisions.columns[0]),
    }
}

/// What the Provider Workspaces leave of the provider bar, where there is a
/// Target Environment to name.
pub open spec fn target_region(state: StateModel, bar: Rect, end: u16) -> Option<Rect> {
    if target_label(state) is Some && end < right_of(bar) {
        Some(rect(end, bar.y, (right_of(bar) - end) as u16, 1))
    } else {
        None
    }
}

/// The text that names the active Target Environment.
pub open spec fn target_label(state: StateModel) -> Option<Seq<char>> {
    match state.active_workspace() {
        Some(workspace) => workspace.provider.target_environment,
        None => None,
    }
}

/// The region of the visible Resource Shell Session.
pub open spec fn shell_region(state: StateModel, divisions: DivisionsModel) -> Option<
    ResourceShellArea,
> {
    if state.visible_session() is None {
        None
    } else if state.resource_shell_presentation == ResourceShellPresentation::Enlarged {
        Some(
            ResourceShellArea {
                area: divisions.bands[1],
                terminal: inside(divisions.bands[1], chrome_borders(PaneChrome::Full)),
            },
        )
    } else {
        Some(
            ResourceShellArea { area: divisions.columns[1], terminal: divisions.details[1] },
        )
    }
}

/// Where the first Provider Workspace label begins.
pub open spec fn workspaces_start(state: StateModel, bar: Rect) -> u16 {
    held(bar.x + held(width_of(selector_label(state)) + PROVIDER_LABEL_GAP))
}

/// The layout that divisions of a screen give.
#[verifier::opaque]
pub open spec fn arranged(state: StateModel, area: Rect, divisions: DivisionsModel) -> LayoutModel {
    let bar = divisions.bands[0];
    let start = workspaces_start(state, bar);
    let labels = workspace_labels(state);
    LayoutModel {
        provider_bar: bar,
        workspace: divisions.bands[1],
        status: divisions.bands[2],
        provider_selector: rect(
            bar.x,
            bar.y,
            held(width_of(selector_label(state)) + PROVIDER_LABEL_GAP),
            1,
        ),
        active_target: target_region(
            state,
            bar,
            label_end(labels, start, PROVIDER_WORKSPACE_GAP, labels.len() as int),
        ),
        provider_workspaces: label_regions(labels, start, bar.y, PROVIDER_WORKSPACE_GAP),
        panes: if state.active_workspace() is Some {
            Some(arranged_panes(state, divisions))
        } else {
            None
        },
        overlay: overlay_region(state, area),
        resource_shell: shell_region(state, divisions),
    }
}

/// Builds the Providers Pane label exactly as the provider bar draws it.
///
/// Measuring and drawing read this one string, so a region cannot disagree
/// with the text under it. The same holds for the two labels below.
pub fn provider_selector_label(state: &AppState) -> (label: String)
    ensures
        label@ == selector_label(state@),
{
    let mut label = String::new();
    if state.focused_pane == FocusedPane::Providers {
        label.append("▶ ");
    }
    let ghost mark = label@;
    match &state.hints.focus_providers {
        Some(key) => {
            label.append("[");
            label.append(key.as_str());
            label.append("] Providers");
            assert(label@ =~= mark + ("["@ + key@ + "] Providers"@));
        },
        None => {
            label.append("Providers");
        },
    }
    assert(label@ =~= selector_label(state@));
    label
}

/// Builds one Provider Workspace label exactly as the provider bar draws it.
pub fn provider_workspace_label(provider: &ProviderWorkspaceState, active: bool) -> (label: String)
    ensures
        label@ == workspace_label(provider@, active),
{
    if !active {
        return provider.name().to_owned();
    }
    let mut label = "[ ".to_owned();
    label.append(provider.name());
    match provider.target_environment() {
        Some(target) => {
            label.append(" · ");
            label.append(target.as_str());
        },
        None => {},
    }
    label.append(" ]");
    label
}

/// Builds one Detail View label exactly as the Details Pane draws it.
pub fn detail_view_label(title: &str, selected: bool) -> (label: String)
    ensures
        label@ == tab_label(title@, selected),
{
    if selected {
        let mut label = "[ ".to_owned();
        label.append(title);
        label.append(" ]");
        label
    } else {
        title.to_owned()
    }
}

/// The text that names the active Target Environment.
pub fn active_target_label(state: &AppState) -> (label: Option<String>)
    ensures
        opt_view(label) == target_label(state@),
{
    match state.active_workspace() {
        Some(workspace) => match workspace.target_environment() {
            Some(target) => Some(target.as_str().to_owned()),
            None => None,
        },
        None => None,
    }
}

/// The number of columns a label takes.
pub fn label_width(label: &str) -> (width: u16)
    ensures
        width == width_of(label@),
{
    let count: usize = label.unicode_len() % 0x10000;
    count as u16
}

/// The blank columns drawn between labels, as a string of that width.
pub fn gap(width: u16) -> (blank: String)
    ensures
        blank@ == Seq::new(width as nat, |i: int| ' '),
{
    let mut blank = String::new();
    let mut i: u16 = 0;
    while i < width
        invariant
            i <= width,
            blank@ == Seq::new(i as nat, |j: int| ' '),
        decreases width - i,
    {
        blank.append(" ");
        proof {
            reveal_strlit(" ");
            assert(blank@ =~= Seq::new((i + 1) as nat, |j: int| ' '));
        }
        i = i + 1;
    }
    blank
}

/// The regions of labels drawn in a row, and where the last leaves off.
fn place_labels(labels: &Vec<String>, x: u16, y: u16, gap: u16) -> (placed: (Vec<Rect>, u16))
    ensures
        placed.0@ == label_regions(views(labels@), x, y, gap),
        placed.1 == label_end(views(labels@), x, gap, labels@.len() as int),
{
    let mut regions: Vec<Rect> = Vec::new();
    let mut end: u16 = x;
    let ghost texts = views(labels@);
    let ghost all = label_regions(texts, x, y, gap);
    let mut i: usize = 0;
    assert(regions@ =~= all.take(0));
    while i < labels.len()
        invariant
            i <= labels.len(),
            texts == views(labels@),
            all == label_regions(texts, x, y, gap),
            regions@ == all.take(i as int),
            end == label_end(texts, x, gap, i as int),
        decreases labels.len() - i,
    {
        let start: u16 = if i > 0 {
            end.saturating_add(gap)
        } else {
            x
        };
        let width = label_width(labels[i].as_str());
        assert(texts[i as int] == labels@[i as int]@);
        assert(start == label_start(texts, x, gap, i as int));
        regions.push(Rect::new(start, y, width, 1));
        assert(all.take(i + 1) =~= all.take(i as int).push(all[i as int]));
        end = start.saturating_add(width);
        i = i + 1;
    }
    assert(all.take(i as int) =~= all);
    (regions, end)
}

fn provider_labels(state: &AppState) -> (labels: Vec<String>)
    ensures
        views(labels@) == workspace_labels(state@),
{
    let mut labels: Vec<String> = Vec::new();
    let ghost all = workspace_labels(state@);
    let mut i: usize = 0;
    assert(views(labels@) =~= all.take(0));
    while i < state.providers.len()
        invariant
            i <= state.providers.len(),
            all == workspace_labels(state@),
            all.len() == state.providers.len(),
            views(labels@) == all.take(i as int),
        decreases state.providers.len() - i,
    {
        let active = match state.active_provider {
            Some(active) => active == i,
            None => false,
        };
        let ghost before = labels@;
        let label = provider_workspace_label(&state.providers[i], active);
        labels.push(label);
        proof {
            assert(state@.providers[i as int] == state.providers@[i as int]@);
            assert(all[i as int] == label@);
            assert(views(labels@) =~= views(before).push(label@));
            assert(all.take(i + 1) =~= all.take(i as int).push(all[i as int]));
        }
        i = i + 1;
    }
    assert(all.take(i as int) =~= all);
    labels
}

/// Builds every tab label of the selected Resource exactly as the Details Pane
/// draws them.
pub fn detail_tab_labels(view: &WorkspaceView<'_>) -> (labels: Vec<String>)
    ensures
        views(labels@) == tab_labels(view@),
{
    let mut labels: Vec<String> = Vec::new();
    let ghost all = tab_labels(view@);
    let ghost declared = view@.detail_views;
    if view.selected_resource.is_none() {
        assert(views(labels@) =~= all);
        return labels;
    }
    labels.push(detail_view_label("Overview", view.overview_selected));
    assert(views(labels@) =~= all.take(1));
    let mut i: usize = 0;
    while i < view.detail_views.len()
        invariant
            i <= view.detail_views.len(),
            all == tab_labels(view@),
            declared == view@.detail_views,
            view@.selected_resource is Some,
            declared.len() == view.detail_views.len(),
            all.len() >= declared.len() + 1,
            views(labels@) == all.take(i + 1),
        decreases view.detail_views.len() - i,
    {
        let shown: &DetailView = &view.detail_views[i];
        let selected = match view.selected_detail_view {
            Some(selected) => selected.id.same(&shown.id),
            None => false,
        };
        let ghost before = labels@;
        let label = detail_view_label(shown.title.as_str(), selected);
        labels.push(label);
        proof {
            assert(declared[i as int] == shown@);
            assert(all[i + 1] == label@);
            assert(views(labels@) =~= views(before).push(label@));
            assert(all.take(i + 2) =~= all.take(i + 1).push(all[i + 1]));
        }
        i = i + 1;
    }
    if view.shell_offered {
        let ghost before = labels@;
        let label = detail_view_label("Shell", view.shell_selected);
        labels.push(label);
        proof {
            assert(views(labels@) =~= views(before).push(label@));
            assert(views(labels@) =~= all);
        }
    } else {
        assert(all.take(i + 1) =~= all);
    }
    labels
}

/// A region in the middle of another, as large as wanted and as there is room.
pub fn centered_rect(width: u16, height: u16, area: Rect) -> (middle: Rect)
    ensures
        middle == centered(width, height, area),
{
    Rect {
        x: area.x.saturating_add(area.width.saturating_sub(width) / 2),
        y: area.y.saturating_add(area.height.saturating_sub(height) / 2),
        width: min_u16(width, area.width),
        height: min_u16(height, area.height),
    }
}

pub fn help_overlay_area(state: &AppState, area: Rect) -> (region: Option<Rect>)
    ensures
        region == help_region(state@, area),
{
    match &state.help_overlay {
        Some(help) => {
            assert(help@.entries.len() == help.entries.len());
            let entries: usize = help.entries.len() % 0x10000;
            let rows: u16 = (entries as u16).saturating_add(2);
            Some(
                centered_rect(
                    42,
                    if rows < 4 {
                        4
                    } else {
                        rows
                    },
                    area,
                ),
            )
        },
        None => None,
    }
}

/// The region of a reported failure.
///
/// Narrow terminals wrap the message instead of clipping it: an error that
/// cannot name its Provider, Resource, and Command is not an identifying one.
pub fn command_error_area(state: &AppState, area: Rect) -> (region: Option<Rect>)
    ensures
        region == error_region(state@, area),
{
    match &state.command_error {
        Some(error) => {
            let message = label_width(error.as_str());
            let width = min_u16(message.saturating_add(4), area.width);
            let row: u16 = if width <= 2 {
                1
            } else {
                width - 2
            };
            let lines: u32 = (message as u32 + row as u32 - 1) / (row as u32);
            proof {
                assert(lines <= message as u32) by (nonlinear_arith)
                    requires
                        row >= 1,
                        lines == (message + row - 1) / (row as int),
                ;
            }
            let wrapped: u16 = lines as u16;
            Some(centered_rect(width, wrapped.saturating_add(3), area))
        },
        None => None,
    }
}

pub fn confirmation_area(state: &AppState, area: Rect) -> (region: Option<Rect>)
    ensures
        region == confirmation_region(state@, area),
{
    match &state.confirmation {
        Some(_) => Some(centered_rect(64, 5, area)),
        None => None,
    }
}

/// The region of whichever modal is drawn last, and so sits on top.
pub fn overlay_area(state: &AppState, area: Rect) -> (region: Option<Rect>)
    ensures
        region == overlay_region(state@, area),
{
    match confirmation_area(state, area) {
        Some(region) => Some(region),
        None => match command_error_area(state, area) {
            Some(region) => Some(region),
            None => help_overlay_area(state, area),
        },
    }
}

/// The Resources that a panel shows, from the first up to but without the last:
/// as few rows down as keep the selected one on screen.
pub fn visible_resource_range(
    selected_index: usize,
    viewport_height: usize,
    resource_count: usize,
) -> (range: std::ops::Range<usize>)
    ensures
        range.start == first_visible(
            selected_index as int,
            viewport_height as int,
            resource_count as int,
        ),
        range.end == range.start + visible_count(viewport_height as int, resource_count as int),
        range.end <= resource_count,
{
    let shown: usize = if viewport_height < resource_count {
        viewport_height
    } else {
        resource_count
    };
    if shown == 0 {
        return 0..0;
    }
    let selected: usize = if selected_index < resource_count {
        selected_index
    } else {
        resource_count - 1
    };
    let start: usize = if selected + 1 <= shown {
        0
    } else {
        selected + 1 - shown
    };
    start..start + shown
}

/// The rows of one panel, each with the Resource it shows.
fn rows_of_panel(panel: &ResourcePanelView<'_>, area: Rect) -> (rows: Vec<(usize, Rect)>)
    ensures
        rows@ == panel_rows(panel@, area),
{
    let inner = PaneChrome::Resource.borders().inner(area);
    let height: u16 = area.height.saturating_sub(2);
    assert(panel@.panel.resources.len() == panel.panel.resources.len());
    let visible = visible_resource_range(
        panel.selected_index,
        height as usize,
        panel.panel.resources.len(),
    );
    let mut rows: Vec<(usize, Rect)> = Vec::new();
    let ghost all = panel_rows(panel@, area);
    let count: usize = visible.end - visible.start;
    let mut i: usize = 0;
    assert(rows@ =~= all.take(0));
    while i < count
        invariant
            i <= count,
            count <= height,
            count == all.len(),
            visible.start + count <= usize::MAX,
            forall|j: int|
                0 <= j < all.len() ==> #[trigger] all[j] == (
                    (visible.start + j) as usize,
                    rect(inner.x, held(inner.y + j), inner.width, 1),
                ),
            rows@ == all.take(i as int),
        decreases count - i,
    {
        rows.push(
            (
                visible.start + i,
                Rect::new(inner.x, inner.y.saturating_add(i as u16), inner.width, 1),
            ),
        );
        assert(all.take(i + 1) =~= all.take(i as int).push(all[i as int]));
        i = i + 1;
    }
    assert(all.take(i as int) =~= all);
    rows
}

fn panel_shares(panels: &Vec<ResourcePanelView<'_>>) -> (constraints: Vec<Constraint>)
    ensures
        constraints@ == panel_constraints(views(panels@)),
{
    let mut constraints: Vec<Constraint> = Vec::new();
    let ghost all = panel_constraints(views(panels@));
    let mut i: usize = 0;
    assert(constraints@ =~= all.take(0));
    while i < panels.len()
        invariant
            i <= panels.len(),
            all == panel_constraints(views(panels@)),
            constraints@ == all.take(i as int),
        decreases panels.len() - i,
    {
        let count: usize = panels[i].panel.resources.len();
        let share: u16 = if count == 0 {
            1
        } else {
            (count % 0x10000) as u16
        };
        proof {
            assert(views(panels@)[i as int] == panels@[i as int]@);
            assert(panels@[i as int]@.panel.resources.len() == count);
            assert(all[i as int] == Constraint::Fill(share));
            assert(all.take(i + 1) =~= all.take(i as int).push(all[i as int]));
        }
        constraints.push(Constraint::Fill(share));
        i = i + 1;
    }
    assert(all.take(i as int) =~= all);
    constraints
}

/// The panels that are drawn.
fn panels_on_screen<'a>(state: &'a AppState) -> (panels: Vec<ResourcePanelView<'a>>)
    ensures
        views(panels@) == drawn_panels(state@),
{
    match state.active_workspace() {
        Some(workspace) => match workspace.presentation() {
            WorkspacePresentation::Ready(view) => view.panels(),
            _ => {
                let none: Vec<ResourcePanelView<'a>> = Vec::new();
                assert(views(none@) =~= Seq::empty());
                none
            },
        },
        None => {
            let none: Vec<ResourcePanelView<'a>> = Vec::new();
            assert(views(none@) =~= Seq::empty());
            none
        },
    }
}

/// Whether the Details Pane has tabs.
fn tabs_on_screen(state: &AppState) -> (answer: bool)
    ensures
        answer == has_tabs(state@),
{
    match state.active_workspace() {
        Some(workspace) => match workspace.presentation() {
            WorkspacePresentation::Ready(view) => view.selected_resource.is_some(),
            _ => false,
        },
        None => false,
    }
}

fn tab_regions(state: &AppState, row: Rect) -> (regions: Vec<Rect>)
    ensures
        regions@ == (match active_view(state@) {
            Some(view) => label_regions(tab_labels(view), row.x, row.y, DETAIL_VIEW_GAP),
            None => Seq::empty(),
        }),
{
    match state.active_workspace() {
        Some(workspace) => match workspace.presentation() {
            WorkspacePresentation::Ready(view) => {
                let labels = detail_tab_labels(&view);
                place_labels(&labels, row.x, row.y, DETAIL_VIEW_GAP).0
            },
            _ => Vec::new(),
        },
        None => Vec::new(),
    }
}

impl Divisions {
    /// Divides a screen for the state to be drawn on it.
    pub fn of(state: &AppState, area: Rect) -> (divisions: Self)
        ensures
            divisions@.fits(state@, area),
    {
        let bands = split(
            Direction::Vertical,
            &vec![Constraint::Length(1), Constraint::Min(1), Constraint::Length(1)],
            area,
        );
        let share: u16 = state.pane_boundary.resources_percent();
        let rest: u16 = 100 - share;
        let columns = split(
            Direction::Horizontal,
            &vec![Constraint::Percentage(share), Constraint::Percentage(rest)],
            bands[1],
        );
        let drawn = panels_on_screen(state);
        let panels = split(Direction::Vertical, &panel_shares(&drawn), columns[0]);
        let tabs: u16 = if tabs_on_screen(state) {
            1
        } else {
            0
        };
        let details = split(
            Direction::Vertical,
            &vec![Constraint::Length(tabs), Constraint::Min(0)],
            PaneChrome::Details.borders().inner(columns[1]),
        );
        let divisions = Divisions { bands, columns, panels, details };
        proof {
            reveal(DivisionsModel::fits);
        }
        divisions
    }
}

/// The Panes that divisions give.
fn arrange_panes(state: &AppState, divisions: &Divisions) -> (panes: WorkspacePanes)
    requires
        divisions@.columns.len() == 2,
        divisions@.details.len() == 2,
        divisions@.panels.len() == drawn_panels(state@).len(),
    ensures
        panes@ == arranged_panes(state@, divisions@),
{
    let drawn = panels_on_screen(state);
    let ghost panels = views(drawn@);
    let mut resource_rows: Vec<Vec<(usize, Rect)>> = Vec::new();
    let mut resource_panels: Vec<Rect> = Vec::new();
    let ghost all = arranged_panes(state@, divisions@).resource_rows;
    let mut i: usize = 0;
    assert(rows_view(resource_rows@) =~= all.take(0));
    while i < drawn.len()
        invariant
            i <= drawn.len(),
            panels == views(drawn@),
            panels.len() == divisions.panels@.len(),
            all.len() == panels.len(),
            forall|j: int|
                0 <= j < all.len() ==> #[trigger] all[j] == panel_rows(
                    panels[j],
                    divisions.panels@[j],
                ),
            rows_view(resource_rows@) == all.take(i as int),
            resource_panels@ == divisions.panels@.take(i as int),
        decreases drawn.len() - i,
    {
        let area = divisions.panels[i];
        let rows = rows_of_panel(&drawn[i], area);
        let ghost before = resource_rows@;
        proof {
            assert(panels[i as int] == drawn@[i as int]@);
            assert(all[i as int] == rows@);
        }
        resource_rows.push(rows);
        resource_panels.push(area);
        proof {
            assert(rows_view(resource_rows@) =~= rows_view(before).push(rows@));
            assert(all.take(i + 1) =~= all.take(i as int).push(all[i as int]));
            assert(divisions.panels@.take(i + 1) =~= divisions.panels@.take(i as int).push(area));
        }
        i = i + 1;
    }
    assert(all.take(i as int) =~= all);
    assert(divisions.panels@.take(i as int) =~= divisions.panels@);
    let resources = divisions.columns[0];
    let panes = WorkspacePanes {
        resources,
        resource_panels,
        resource_rows,
        details: divisions.columns[1],
        detail_content: divisions.details[1],
        detail_views: tab_regions(state, divisions.details[0]),
        pane_boundary: Rect::new(
            resources.right().saturating_sub(1),
            resources.y,
            2,
            resources.height,
        ),
    };
    panes
}

fn place_target(state: &AppState, bar: Rect, end: u16) -> (region: Option<Rect>)
    ensures
        region == target_region(state@, bar, end),
{
    if active_target_label(state).is_some() && end < bar.right() {
        Some(Rect::new(end, bar.y, bar.right() - end, 1))
    } else {
        None
    }
}

fn place_shell(state: &AppState, divisions: &Divisions) -> (region: Option<ResourceShellArea>)
    requires
        divisions@.bands.len() == 3,
        divisions@.columns.len() == 2,
        divisions@.details.len() == 2,
    ensures
        region == shell_region(state@, divisions@),
{
    if state.visible_resource_shell_session().is_none() {
        return None;
    }
    if state.resource_shell_presentation == ResourceShellPresentation::Enlarged {
        Some(
            ResourceShellArea {
                area: divisions.bands[1],
                terminal: PaneChrome::Full.borders().inner(divisions.bands[1]),
            },
        )
    } else {
        Some(ResourceShellArea { area: divisions.columns[1], terminal: divisions.details[1] })
    }
}

/// A layout arranged from divisions that fit is what measuring gives.
proof fn lemma_measured(
    state: StateModel,
    area: Rect,
    divisions: DivisionsModel,
    layout: LayoutModel,
)
    requires
        divisions.fits(state, area),
        layout == arranged(state, area, divisions),
    ensures
        exists|divisions: DivisionsModel| #[trigger]
            divisions.fits(state, area) && layout == arranged(state, area, divisions),
{
}

/// Divisions that fit hold as many rectangles as a layout is made of.
proof fn lemma_fitting_counts(state: StateModel, area: Rect, divisions: DivisionsModel)
    requires
        divisions.fits(state, area),
    ensures
        divisions.bands.len() == 3,
        divisions.columns.len() == 2,
        divisions.details.len() == 2,
        divisions.panels.len() == drawn_panels(state).len(),
{
    reveal(DivisionsModel::fits);
}

impl ScreenLayout {
    /// Works out every region for the state drawn on a screen.
    pub fn measure(state: &AppState, area: Rect) -> (layout: Self)
        ensures
            exists|divisions: DivisionsModel| #[trigger]
                divisions.fits(state@, area) && layout@ == arranged(state@, area, divisions),
    {
        let divisions = Divisions::of(state, area);
        proof {
            lemma_fitting_counts(state@, area, divisions@);
        }
        let layout = ScreenLayout::arrange(state, area, &divisions);
        proof {
            lemma_measured(state@, area, divisions@, layout@);
        }
        layout
    }

    /// Works out every region from a screen already divided.
    pub fn arrange(state: &AppState, area: Rect, divisions: &Divisions) -> (layout: Self)
        requires
            divisions@.bands.len() == 3,
            divisions@.columns.len() == 2,
            divisions@.details.len() == 2,
            divisions@.panels.len() == drawn_panels(state@).len(),
        ensures
            layout@ == arranged(state@, area, divisions@),
    {
        proof {
            reveal(arranged);
        }
        let bar = divisions.bands[0];
        let selector = provider_selector_label(state);
        let selector_width = label_width(selector.as_str()).saturating_add(PROVIDER_LABEL_GAP);
        let start = bar.x.saturating_add(selector_width);
        let labels = provider_labels(state);
        let (provider_workspaces, end) = place_labels(
            &labels,
            start,
            bar.y,
            PROVIDER_WORKSPACE_GAP,
        );
        let panes = if state.active_index().is_some() {
            Some(arrange_panes(state, divisions))
        } else {
            None
        };
        ScreenLayout {
            provider_bar: bar,
            workspace: divisions.bands[1],
            status: divisions.bands[2],
            provider_selector: Rect::new(bar.x, bar.y, selector_width, 1),
            active_target: place_target(state, bar, end),
            provider_workspaces,
            panes,
            overlay: overlay_area(state, area),
            resource_shell: place_shell(state, divisions),
        }
    }
}

/// The rows a panel shows fit its viewport, hold the selected Resource, and
/// exist.
pub proof fn law_the_selected_row_is_visible(selected: int, height: int, count: int)
    requires
        0 <= selected < count,
        0 < height,
    ensures
        visible_count(height, count) <= height,
        0 <= first_visible(selected, height, count),
        first_visible(selected, height, count) + visible_count(height, count) <= count,
        first_visible(selected, height, count) <= selected < first_visible(selected, height, count)
            + visible_count(height, count),
{
}

/// A modal stays on the screen it is drawn on.
pub proof fn law_a_modal_stays_on_screen(width: u16, height: u16, area: Rect)
    requires
        area.x + area.width <= u16::MAX,
        area.y + area.height <= u16::MAX,
    ensures
        ({
            let middle = centered(width, height, area);
            area.x <= middle.x && middle.x + middle.width <= area.x + area.width && area.y
                <= middle.y && middle.y + middle.height <= area.y + area.height
        }),
{
}

/// On every screen of three rows or more, the provider bar is the first row, the
/// footer is the last, and the Active Workspace has all the rows between them.
pub proof fn law_the_bands_share_the_screen(
    divisions: DivisionsModel,
    state: StateModel,
    area: Rect,
)
    requires
        divisions.fits(state, area),
        area.height >= 3,
        area.y + area.height <= u16::MAX,
    ensures
        divisions.bands[0] == (Rect { height: 1, ..area }),
        divisions.bands[1] == (Rect {
            y: (area.y + 1) as u16,
            height: (area.height - 2) as u16,
            ..area
        }),
        divisions.bands[2] == (Rect {
            y: (area.y + area.height - 1) as u16,
            height: 1,
            ..area
        }),
{
    reveal(DivisionsModel::fits);
    let constraints = band_constraints();
    reveal_with_fuel(total_wanted, 4);
    assert(constraints.drop_last() =~= seq![Constraint::Length(1), Constraint::Min(1)]);
    assert(constraints.drop_last().drop_last() =~= seq![Constraint::Length(1)]);
    assert(total_wanted(constraints) == 3);
    assert(one_grows(constraints, 1));
    let bands = divisions.bands;
    assert(extent(bands[0], Direction::Vertical) == 1);
    assert(extent(bands[2], Direction::Vertical) == 1);
    assert(spans(bands[0], Direction::Vertical, area));
    assert(spans(bands[1], Direction::Vertical, area));
    assert(spans(bands[2], Direction::Vertical, area));
    assert(start_of(bands[1], Direction::Vertical) == end_of(bands[0], Direction::Vertical));
    assert(start_of(bands[2], Direction::Vertical) == end_of(bands[1], Direction::Vertical));
}

/// The Resource Panels have their share of the columns, to the nearest one, and
/// the Details Pane has the rest.
pub proof fn law_the_boundary_divides_the_columns(
    divisions: DivisionsModel,
    state: StateModel,
    area: Rect,
)
    requires
        divisions.fits(state, area),
        state.pane_boundary.in_range(),
        divisions.bands[1].x + divisions.bands[1].width <= u16::MAX,
    ensures
        ({
            let workspace = divisions.bands[1];
            let width = (workspace.width * state.pane_boundary.percent + 50) / 100;
            &&& divisions.columns[0] == (Rect { width: width as u16, ..workspace })
            &&& divisions.columns[1] == (Rect {
                x: (workspace.x + width) as u16,
                width: (workspace.width - width) as u16,
                ..workspace
            })
        }),
{
    reveal(DivisionsModel::fits);
    let workspace = divisions.bands[1];
    let columns = divisions.columns;
    assert(two_shares(column_constraints(state.pane_boundary.percent)));
    assert(spans(columns[0], Direction::Horizontal, workspace));
    assert(spans(columns[1], Direction::Horizontal, workspace));
    assert(start_of(columns[1], Direction::Horizontal) == end_of(
        columns[0],
        Direction::Horizontal,
    ));
}

/// No row of the Resource Panels' column is lost: the panels follow one another
/// from its first row to its last.
pub proof fn law_the_panels_fill_their_column(
    divisions: DivisionsModel,
    state: StateModel,
    area: Rect,
)
    requires
        divisions.fits(state, area),
        1 <= drawn_panels(state).len() <= NUMBERED_RESOURCE_PANEL_CAPACITY,
        forall|i: int|
            0 <= i < drawn_panels(state).len() ==> (#[trigger] drawn_panels(
                state,
            )[i]).panel.resources.len() <= u16::MAX,
    ensures
        divisions.panels[0].y == divisions.columns[0].y,
        forall|i: int|
            0 < i < divisions.panels.len() ==> (#[trigger] divisions.panels[i]).y == bottom_of(
                divisions.panels[i - 1],
            ),
        bottom_of(divisions.panels.last()) == bottom_of(divisions.columns[0]),
{
    reveal(DivisionsModel::fits);
    let constraints = panel_constraints(drawn_panels(state));
    assert forall|i: int| 0 <= i < constraints.len() implies (#[trigger] constraints[i] matches
        Constraint::Fill(weight) && weight > 0) by {
        assert(drawn_panels(state)[i].panel.resources.len() <= u16::MAX);
    }
    let panels = divisions.panels;
    assert forall|i: int| 0 < i < panels.len() implies (#[trigger] panels[i]).y == bottom_of(
        panels[i - 1],
    ) by {
        assert(start_of(panels[i], Direction::Vertical) == end_of(
            panels[i - 1],
            Direction::Vertical,
        ));
    }
}

} // verus!
