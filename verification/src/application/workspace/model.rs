//! What a Provider Workspace is, and how each operation changes it.

use vstd::prelude::*;

use super::{DetailPosition, DetailSelection};
use crate::application::provider::{
    find_panel, find_resource, find_view, panel_ids, resource_ids, snapshot_detail_of, view_ids,
    DetailViewModel, PanelModel, ProviderRequestId, ResourceModel,
};
use crate::domain::{ProviderModel, TargetModel};
use crate::steps::clamped;
use crate::text::{first_position, get, joined};

verus! {

/// Whether a Provider Workspace is loading, ready to present, or unavailable.
#[verifier::ext_equal]
pub enum LoadModel {
    Loading,
    Ready(Seq<PanelModel>),
    Error(Seq<char>),
}

/// What one Resource Panel has selected.
#[verifier::ext_equal]
pub struct NavigationModel {
    pub panel_id: Seq<char>,
    pub selected_resource: Option<Seq<char>>,
    pub selected_index: int,
}

/// What has become of a Detail View's content.
#[verifier::ext_equal]
pub enum ContentModel {
    Loading,
    Ready(Seq<Seq<char>>),
    Error(Seq<char>),
}

/// One Detail View of one Resource.
#[verifier::ext_equal]
pub struct DetailTargetModel {
    pub resource: TargetModel,
    pub view_id: Seq<char>,
}

/// The Detail View on screen.
#[verifier::ext_equal]
pub struct DetailsModel {
    pub request_id: Option<ProviderRequestId>,
    pub provider_id: Seq<char>,
    pub target: DetailTargetModel,
    pub resource_name: Seq<char>,
    pub title: Seq<char>,
    pub content: ContentModel,
    pub scroll: u16,
    pub selection: Option<DetailSelection>,
}

/// One of the tabs that a selected Resource can be inspected through.
#[verifier::ext_equal]
pub enum TabModel {
    Overview,
    View(Seq<char>),
    Shell,
}

/// The identity of one request for Detail content.
#[verifier::ext_equal]
pub struct LoadRequestModel {
    pub request_id: ProviderRequestId,
    pub provider_id: Seq<char>,
    pub target: DetailTargetModel,
}

/// How a request for Detail content ended.
#[verifier::ext_equal]
pub struct CompletionModel {
    pub load: LoadRequestModel,
    pub result: Result<Seq<Seq<char>>, Seq<char>>,
}

/// All presentation-neutral state of one Provider Workspace.
#[verifier::ext_equal]
pub struct WorkspaceModel {
    pub provider: ProviderModel,
    pub load_state: LoadModel,
    pub focused_resource_panel: Option<Seq<char>>,
    pub panel_navigation: Seq<NavigationModel>,
    pub selected_tab: TabModel,
    pub details: Option<DetailsModel>,
}

pub open spec fn navigation_ids(navigation: Seq<NavigationModel>) -> Seq<Seq<char>> {
    navigation.map_values(|entry: NavigationModel| entry.panel_id)
}

/// What a panel has selected.
pub open spec fn find_navigation(navigation: Seq<NavigationModel>, id: Seq<char>) -> Option<
    NavigationModel,
> {
    match first_position(navigation_ids(navigation), id) {
        Some(i) => Some(navigation[i]),
        None => None,
    }
}

/// The first Resource of a panel.
pub open spec fn first_resource(panel: PanelModel) -> Option<Seq<char>> {
    if panel.resources.len() > 0 {
        Some(panel.resources[0].id)
    } else {
        None
    }
}

/// Where a panel holds the Resource it has selected.
pub open spec fn selected_position(panel: PanelModel, selected: Option<Seq<char>>) -> Option<int> {
    match selected {
        Some(id) => first_position(resource_ids(panel.resources), id),
        None => None,
    }
}

/// A panel's selection moved by a step, clamped at the panel's ends. Where
/// nothing valid was selected, the selection starts at the top.
pub open spec fn moved_navigation(
    entry: NavigationModel,
    panel: PanelModel,
    delta: int,
) -> NavigationModel {
    match selected_position(panel, entry.selected_resource) {
        Some(current) => {
            let next = clamped(current + delta, 0, panel.resources.len() - 1);
            NavigationModel {
                selected_resource: Some(panel.resources[next].id),
                selected_index: next,
                ..entry
            }
        },
        None => NavigationModel {
            selected_resource: first_resource(panel),
            selected_index: 0,
            ..entry
        },
    }
}

/// What a panel has selected after a refresh: the Resource remembered for it
/// while it still holds that Resource, and otherwise its first.
pub open spec fn reconciled_navigation(
    previous: Seq<NavigationModel>,
    panel: PanelModel,
) -> NavigationModel {
    let remembered = match find_navigation(previous, panel.id) {
        Some(entry) => entry.selected_resource,
        None => None,
    };
    let selected = if selected_position(panel, remembered) is Some {
        remembered
    } else {
        first_resource(panel)
    };
    NavigationModel {
        panel_id: panel.id,
        selected_resource: selected,
        selected_index: match selected_position(panel, selected) {
            Some(i) => i,
            None => 0,
        },
    }
}

/// What every panel has selected after a refresh.
pub open spec fn reconciled_navigations(
    previous: Seq<NavigationModel>,
    panels: Seq<PanelModel>,
) -> Seq<NavigationModel> {
    panels.map_values(|panel: PanelModel| reconciled_navigation(previous, panel))
}

/// The tabs of a panel's Resource: its Overview, the Detail Views the panel
/// declares, and its shell where it has one.
pub open spec fn tabs_of(panel: PanelModel, has_shell: bool) -> Seq<TabModel> {
    seq![TabModel::Overview] + panel.detail_views.map_values(
        |view: DetailViewModel| TabModel::View(view.id),
    ) + (if has_shell {
        seq![TabModel::Shell]
    } else {
        Seq::empty()
    })
}

/// Whether a panel declares the view that a tab shows. The tabs that no panel
/// declares are always kept.
pub open spec fn keeps_tab(panel: Option<PanelModel>, tab: TabModel) -> bool {
    match tab {
        TabModel::View(id) => match panel {
            Some(panel) => view_ids(panel.detail_views).contains(id),
            None => false,
        },
        TabModel::Overview => true,
        TabModel::Shell => true,
    }
}

/// A tab while the panel offers it, and otherwise the Overview.
pub open spec fn kept_tab(panel: Option<PanelModel>, tab: TabModel) -> TabModel {
    if keeps_tab(panel, tab) {
        tab
    } else {
        TabModel::Overview
    }
}

/// The position inside loaded content that a line and a column name, with the
/// column held inside its line. Lengths are counted as screens count columns,
/// in sixteen bits.
pub open spec fn position_in(content: ContentModel, line: u16, column: u16) -> Option<
    DetailPosition,
> {
    match content {
        ContentModel::Ready(lines) => if (line as int) < lines.len() {
            let width = (lines[line as int].len() % 0x10000) as u16;
            Some(
                DetailPosition {
                    line,
                    column: if column <= width {
                        column
                    } else {
                        width
                    },
                },
            )
        } else {
            None
        },
        _ => None,
    }
}

/// Whether one position is no later in the text than another.
pub open spec fn precedes(left: DetailPosition, right: DetailPosition) -> bool {
    left.line < right.line || (left.line == right.line && left.column <= right.column)
}

/// The earlier end of a selection.
pub open spec fn selection_start(selection: DetailSelection) -> DetailPosition {
    if precedes(selection.start, selection.end) {
        selection.start
    } else {
        selection.end
    }
}

/// The later end of a selection.
pub open spec fn selection_end(selection: DetailSelection) -> DetailPosition {
    if precedes(selection.start, selection.end) {
        selection.end
    } else {
        selection.start
    }
}

/// The characters of a line from one column up to another.
pub open spec fn columns(text: Seq<char>, from: int, to: int) -> Seq<char> {
    let first = clamped(from, 0, text.len() as int);
    text.subrange(first, clamped(to, first, text.len() as int))
}

/// The part of one line that lies between two positions.
pub open spec fn line_part(
    text: Seq<char>,
    line: int,
    start: DetailPosition,
    end: DetailPosition,
) -> Seq<char> {
    columns(
        text,
        if line == start.line {
            start.column as int
        } else {
            0
        },
        if line == end.line {
            end.column as int
        } else {
            text.len() as int
        },
    )
}

/// The parts of the lines that lie between two positions.
pub open spec fn parts_between(
    lines: Seq<Seq<char>>,
    start: DetailPosition,
    end: DetailPosition,
) -> Seq<Seq<char>> {
    Seq::new(
        (end.line - start.line + 1) as nat,
        |i: int| line_part(lines[start.line + i], start.line + i, start, end),
    )
}

/// The text that a selection covers: nothing where it is empty or reaches
/// past the content.
pub open spec fn selection_text(lines: Seq<Seq<char>>, selection: DetailSelection) -> Option<
    Seq<char>,
> {
    let start = selection_start(selection);
    let end = selection_end(selection);
    if start == end || end.line >= lines.len() {
        None
    } else {
        Some(joined(parts_between(lines, start, end), "\n"@))
    }
}

impl DetailsModel {
    /// Whether the content is still awaited from exactly this request.
    pub open spec fn awaits(self, load: LoadRequestModel) -> bool {
        &&& self.content is Loading
        &&& self.request_id == Some(load.request_id)
        &&& self.provider_id == load.provider_id
        &&& self.target == load.target
    }

    /// The first line that scrolling may bring to the top and still leave a
    /// line on screen.
    pub open spec fn last_line(self) -> int {
        match self.content {
            ContentModel::Ready(lines) => if lines.len() > 0 {
                lines.len() - 1
            } else {
                0
            },
            _ => 0,
        }
    }

    pub open spec fn scrolled(self, delta: int) -> DetailsModel {
        DetailsModel {
            scroll: (clamped(self.scroll + delta, 0, self.last_line()) % 0x10000) as u16,
            ..self
        }
    }

    /// The content position under a viewport position.
    pub open spec fn position_at(self, line: u16, column: u16) -> Option<DetailPosition> {
        let shown = self.scroll + line;
        position_in(
            self.content,
            if shown > u16::MAX {
                u16::MAX
            } else {
                shown as u16
            },
            column,
        )
    }
}

impl WorkspaceModel {
    pub open spec fn new(provider: ProviderModel, error: Option<Seq<char>>) -> WorkspaceModel {
        WorkspaceModel {
            provider,
            load_state: match error {
                Some(message) => LoadModel::Error(message),
                None => LoadModel::Loading,
            },
            focused_resource_panel: None,
            panel_navigation: Seq::empty(),
            selected_tab: TabModel::Overview,
            details: None,
        }
    }

    /// The Resource selected in the focused panel.
    pub open spec fn selected_target(self) -> Option<TargetModel> {
        match self.focused_resource_panel {
            Some(panel_id) => match find_navigation(self.panel_navigation, panel_id) {
                Some(entry) => match entry.selected_resource {
                    Some(resource_id) => Some(TargetModel { panel_id, resource_id }),
                    None => None,
                },
                None => None,
            },
            None => None,
        }
    }

    pub open spec fn selected_resource(self) -> Option<ResourceModel> {
        match (self.selected_target(), self.load_state) {
            (Some(target), LoadModel::Ready(panels)) => find_resource(panels, target),
            _ => None,
        }
    }

    /// Whether the selected Resource has a shell to show.
    pub open spec fn offers_shell(self) -> bool {
        self.selected_resource() matches Some(resource) && resource.shell is Some
    }

    /// Whether the Shell tab of the selected Resource is on screen.
    pub open spec fn shows_shell(self) -> bool {
        self.selected_tab is Shell && self.offers_shell()
    }

    /// The panel that has focus, while the Workspace is ready.
    pub open spec fn focused_panel(self) -> Option<PanelModel> {
        match (self.focused_resource_panel, self.load_state) {
            (Some(id), LoadModel::Ready(panels)) => find_panel(panels, id),
            _ => None,
        }
    }

    pub open spec fn focused_panel_index(self) -> Option<int> {
        match (self.focused_resource_panel, self.load_state) {
            (Some(id), LoadModel::Ready(panels)) => first_position(panel_ids(panels), id),
            _ => None,
        }
    }

    /// The identity of the panel at a provider-defined position.
    pub open spec fn panel_id_at(self, index: int) -> Option<Seq<char>> {
        match self.load_state {
            LoadModel::Ready(panels) => match get(panels, index) {
                Some(panel) => Some(panel.id),
                None => None,
            },
            _ => None,
        }
    }

    /// The Detail View of the selected Resource that the selected tab shows.
    pub open spec fn visible_identity(self) -> Option<DetailTargetModel> {
        match (self.selected_target(), self.selected_tab) {
            (Some(resource), TabModel::View(view_id)) => Some(
                DetailTargetModel { resource, view_id },
            ),
            _ => None,
        }
    }

    pub open spec fn without_pending_detail(self) -> WorkspaceModel {
        if self.details matches Some(details) && details.content is Loading {
            WorkspaceModel { details: None, ..self }
        } else {
            self
        }
    }

    /// The state after an update: a pending load is refused once it no longer
    /// describes what is on screen.
    pub open spec fn settled_since(self, before: WorkspaceModel) -> WorkspaceModel {
        if self.visible_identity() == before.visible_identity() {
            self
        } else {
            self.without_pending_detail()
        }
    }

    pub open spec fn with_load_error(self, message: Seq<char>) -> WorkspaceModel {
        WorkspaceModel {
            load_state: LoadModel::Error(message),
            ..self
        }.without_pending_detail()
    }

    pub open spec fn with_rejected_snapshot(self, message: Seq<char>) -> WorkspaceModel {
        WorkspaceModel::new(self.provider, Some(message))
    }

    pub open spec fn can_focus(self, panel_id: Seq<char>) -> bool {
        self.load_state matches LoadModel::Ready(panels) && panel_ids(panels).contains(panel_id)
    }

    /// A panel in focus, its remembered selection with it. A stale identity
    /// changes nothing.
    pub open spec fn with_focus(self, panel_id: Seq<char>) -> WorkspaceModel {
        if self.can_focus(panel_id) {
            WorkspaceModel {
                focused_resource_panel: Some(panel_id),
                selected_tab: kept_tab(
                    find_panel(self.load_state->Ready_0, panel_id),
                    self.selected_tab,
                ),
                ..self
            }.settled_since(self)
        } else {
            self
        }
    }

    /// One panel's navigation replaced.
    pub open spec fn with_navigation(self, index: int, entry: NavigationModel) -> WorkspaceModel {
        WorkspaceModel { panel_navigation: self.panel_navigation.update(index, entry), ..self }
    }

    pub open spec fn with_moved_selection(self, panel_id: Seq<char>, delta: int) -> WorkspaceModel {
        match self.load_state {
            LoadModel::Ready(panels) => match (
                find_panel(panels, panel_id),
                first_position(navigation_ids(self.panel_navigation), panel_id),
            ) {
                (Some(panel), Some(index)) => self.with_navigation(
                    index,
                    moved_navigation(self.panel_navigation[index], panel, delta),
                ).settled_since(self),
                _ => self,
            },
            _ => self,
        }
    }

    /// The selection of the focused panel moved by a step.
    pub open spec fn with_focused_selection_moved(self, delta: int) -> WorkspaceModel {
        match self.focused_resource_panel {
            Some(panel_id) => self.with_moved_selection(panel_id, delta),
            None => self,
        }
    }

    /// The selection of the panel at a provider-defined position moved by a
    /// step.
    pub open spec fn with_selection_moved_at(self, index: int, delta: int) -> WorkspaceModel {
        match self.panel_id_at(index) {
            Some(panel_id) => self.with_moved_selection(panel_id, delta),
            None => self,
        }
    }

    pub open spec fn with_resource_selected_at(self, index: int) -> WorkspaceModel {
        match (self.focused_panel(), self.focused_resource_panel) {
            (Some(panel), Some(panel_id)) => match (
                get(panel.resources, index),
                first_position(navigation_ids(self.panel_navigation), panel_id),
            ) {
                (Some(resource), Some(entry)) => self.with_navigation(
                    entry,
                    NavigationModel {
                        selected_resource: Some(resource.id),
                        selected_index: index,
                        ..self.panel_navigation[entry]
                    },
                ).settled_since(self),
                _ => self,
            },
            _ => self,
        }
    }

    /// The tabs of the focused panel.
    pub open spec fn tabs(self) -> Seq<TabModel> {
        match self.focused_panel() {
            Some(panel) => tabs_of(panel, self.offers_shell()),
            None => Seq::empty(),
        }
    }

    /// The tabs as a ring, one step away from the selected one. A tab that is
    /// not offered counts as the first.
    pub open spec fn with_tab_moved(self, delta: int) -> WorkspaceModel {
        let tabs = self.tabs();
        if tabs.len() == 0 {
            self
        } else {
            let current = match first_position(tabs, self.selected_tab) {
                Some(i) => i,
                None => 0,
            };
            WorkspaceModel {
                selected_tab: tabs[(current + delta) % (tabs.len() as int)],
                ..self
            }.settled_since(self)
        }
    }

    /// The tab at a position selected; past the end, the Overview.
    pub open spec fn with_tab_selected_at(self, index: int) -> WorkspaceModel {
        let tabs = self.tabs();
        if tabs.len() == 0 {
            self
        } else {
            WorkspaceModel {
                selected_tab: match get(tabs, index) {
                    Some(tab) => tab,
                    None => TabModel::Overview,
                },
                ..self
            }.settled_since(self)
        }
    }

    pub open spec fn with_shell_tab(self) -> WorkspaceModel {
        if self.offers_shell() {
            WorkspaceModel { selected_tab: TabModel::Shell, ..self }.settled_since(self)
        } else {
            self
        }
    }

    /// The Resource and the declared view that the selected tab shows.
    pub open spec fn detail_target(self) -> Option<(ResourceModel, DetailViewModel)> {
        match (self.load_state, self.visible_identity()) {
            (LoadModel::Ready(panels), Some(identity)) => match (
                find_resource(panels, identity.resource),
                find_panel(panels, identity.resource.panel_id),
            ) {
                (Some(resource), Some(panel)) => match find_view(panel, identity.view_id) {
                    Some(view) => Some((resource, view)),
                    None => None,
                },
                _ => None,
            },
            _ => None,
        }
    }

    /// The content of a Detail View that the snapshot already carries.
    pub open spec fn carried(self, identity: DetailTargetModel) -> Option<Seq<Seq<char>>> {
        match self.load_state {
            LoadModel::Ready(panels) => snapshot_detail_of(
                panels,
                identity.resource,
                identity.view_id,
            ),
            _ => None,
        }
    }

    /// Whether the details already describe what is on screen.
    pub open spec fn describes_visible(self) -> bool {
        self.details matches Some(details) && Some(details.target) == self.visible_identity()
    }

    /// The request that bringing the visible details up needs, if any.
    pub open spec fn detail_load(self, request_id: ProviderRequestId) -> Option<LoadRequestModel> {
        match self.detail_target() {
            Some(_) => {
                let identity = self.visible_identity()->0;
                if self.describes_visible() || self.carried(identity) is Some {
                    None
                } else {
                    Some(
                        LoadRequestModel {
                            request_id,
                            provider_id: self.provider.id,
                            target: identity,
                        },
                    )
                }
            },
            None => None,
        }
    }

    /// The details brought in line with what is on screen.
    pub open spec fn with_visible_details(self, request_id: ProviderRequestId) -> WorkspaceModel {
        match self.detail_target() {
            Some((resource, view)) => {
                let identity = self.visible_identity()->0;
                if self.describes_visible() {
                    self
                } else {
                    let carried = self.carried(identity);
                    WorkspaceModel {
                        details: Some(
                            DetailsModel {
                                request_id: if carried is Some {
                                    None
                                } else {
                                    Some(request_id)
                                },
                                provider_id: self.provider.id,
                                target: identity,
                                resource_name: resource.name,
                                title: view.title,
                                content: match carried {
                                    Some(lines) => ContentModel::Ready(lines),
                                    None => ContentModel::Loading,
                                },
                                scroll: 0,
                                selection: None,
                            },
                        ),
                        ..self
                    }
                }
            },
            None => WorkspaceModel { details: None, ..self },
        }
    }

    /// A completion applied: only one that the visible load still awaits
    /// changes anything.
    pub open spec fn with_completion(self, completion: CompletionModel) -> WorkspaceModel {
        match self.details {
            Some(details) => if details.awaits(completion.load) {
                WorkspaceModel {
                    details: Some(
                        DetailsModel {
                            request_id: None,
                            content: match completion.result {
                                Ok(lines) => ContentModel::Ready(lines),
                                Err(message) => ContentModel::Error(message),
                            },
                            ..details
                        },
                    ),
                    ..self
                }
            } else {
                self
            },
            None => self,
        }
    }

    /// The details on screen changed by a function of them.
    pub open spec fn with_details(self, details: DetailsModel) -> WorkspaceModel {
        WorkspaceModel { details: Some(details), ..self }
    }

    pub open spec fn with_details_scrolled(self, delta: int) -> WorkspaceModel {
        match self.details {
            Some(details) => self.with_details(details.scrolled(delta)),
            None => self,
        }
    }

    pub open spec fn with_selection_begun(self, line: u16, column: u16) -> WorkspaceModel {
        match self.details {
            Some(details) => match details.position_at(line, column) {
                Some(position) => self.with_details(
                    DetailsModel {
                        selection: Some(DetailSelection { start: position, end: position }),
                        ..details
                    },
                ),
                None => self,
            },
            None => self,
        }
    }

    pub open spec fn with_selection_extended(self, line: u16, column: u16) -> WorkspaceModel {
        match self.details {
            Some(details) => match (details.position_at(line, column), details.selection) {
                (Some(position), Some(selection)) => self.with_details(
                    DetailsModel {
                        selection: Some(DetailSelection { start: selection.start, end: position }),
                        ..details
                    },
                ),
                _ => self,
            },
            None => self,
        }
    }

    pub open spec fn without_selection(self) -> WorkspaceModel {
        match self.details {
            Some(details) => self.with_details(DetailsModel { selection: None, ..details }),
            None => self,
        }
    }

    /// The selected Details text.
    pub open spec fn selected_text(self) -> Option<Seq<char>> {
        match self.details {
            Some(details) => match (details.content, details.selection) {
                (ContentModel::Ready(lines), Some(selection)) => selection_text(lines, selection),
                _ => None,
            },
            None => None,
        }
    }

    /// New Provider data, with every still-valid presentation choice kept.
    pub open spec fn reconciled(self, panels: Seq<PanelModel>) -> WorkspaceModel {
        let navigated = WorkspaceModel {
            panel_navigation: reconciled_navigations(self.panel_navigation, panels),
            focused_resource_panel: match self.focused_resource_panel {
                Some(id) => if panel_ids(panels).contains(id) {
                    Some(id)
                } else {
                    first_panel(panels)
                },
                None => first_panel(panels),
            },
            ..self
        };
        WorkspaceModel {
            load_state: LoadModel::Ready(panels),
            selected_tab: kept_tab(
                match navigated.selected_target() {
                    Some(target) => find_panel(panels, target.panel_id),
                    None => None,
                },
                self.selected_tab,
            ),
            ..navigated
        }.settled_since(self)
    }
}

/// The first panel of a snapshot.
pub open spec fn first_panel(panels: Seq<PanelModel>) -> Option<Seq<char>> {
    if panels.len() > 0 {
        Some(panels[0].id)
    } else {
        None
    }
}

} // verus!
