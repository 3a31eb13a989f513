//! One Provider Workspace: its snapshot, its navigation, and its Details.

use vstd::prelude::*;
use vstd::string::*;

use super::provider::{
    panel_ids, view_ids, DetailView, ProviderRequestId, Resource, ResourceDetails, ResourcePanel,
    WorkspaceError, WorkspaceSnapshot,
};
use crate::domain::{
    DetailViewId, Provider, ProviderId, ProviderVersion, ResourceId, ResourcePanelId,
    ResourceTarget, TargetEnvironment,
};
use crate::steps::{clamp_step, ring_step};
use crate::text::{
    first_position, get, joined, lemma_first_position, lemma_first_position_found,
    lemma_first_position_none, opt_view, views,
};

pub mod laws;
pub mod model;
pub mod view;

use model::{
    first_resource, kept_tab, line_part, moved_navigation, navigation_ids, parts_between,
    position_in, reconciled_navigation, reconciled_navigations, selected_position, selection_text,
    tabs_of, CompletionModel, ContentModel, DetailTargetModel, DetailsModel, LoadModel,
    LoadRequestModel, NavigationModel, TabModel, WorkspaceModel,
};

verus! {

/// Whether a Provider Workspace is loading, ready to present, or unavailable.
///
/// This load status is one part of [`ProviderWorkspaceState`], not the overall
/// state of the Provider Workspace.
#[derive(Debug, PartialEq, Eq)]
pub enum WorkspaceLoadState {
    Loading,
    Ready(WorkspaceSnapshot),
    Error(WorkspaceError),
}

impl View for WorkspaceLoadState {
    type V = LoadModel;

    open spec fn view(&self) -> LoadModel {
        match self {
            WorkspaceLoadState::Loading => LoadModel::Loading,
            WorkspaceLoadState::Ready(snapshot) => LoadModel::Ready(snapshot@),
            WorkspaceLoadState::Error(error) => LoadModel::Error(error@),
        }
    }
}

#[derive(Debug, PartialEq, Eq)]
pub struct ResourcePanelNavigation {
    panel_id: ResourcePanelId,
    selected_resource: Option<ResourceId>,
    /// The selected Resource's index in the latest snapshot.
    selected_index: usize,
}

impl View for ResourcePanelNavigation {
    type V = NavigationModel;

    closed spec fn view(&self) -> NavigationModel {
        NavigationModel {
            panel_id: self.panel_id@,
            selected_resource: opt_view(self.selected_resource),
            selected_index: self.selected_index as int,
        }
    }
}

/// What has become of a Detail View's content.
#[derive(Debug, PartialEq, Eq)]
pub enum DetailContent {
    Loading,
    Ready(ResourceDetails),
    Error(WorkspaceError),
}

impl View for DetailContent {
    type V = ContentModel;

    open spec fn view(&self) -> ContentModel {
        match self {
            DetailContent::Loading => ContentModel::Loading,
            DetailContent::Ready(details) => ContentModel::Ready(details@),
            DetailContent::Error(error) => ContentModel::Error(error@),
        }
    }
}

/// A half-open source range inside loaded Details text.
#[derive(Clone, Copy, Debug, PartialEq, Eq, Structural)]
pub struct DetailSelection {
    pub start: DetailPosition,
    pub end: DetailPosition,
}

#[derive(Clone, Copy, Debug, PartialEq, Eq, PartialOrd, Ord, Structural)]
pub struct DetailPosition {
    pub line: u16,
    pub column: u16,
}

#[derive(Debug, PartialEq, Eq)]
struct ResourceDetailsState {
    request_id: Option<ProviderRequestId>,
    provider_id: ProviderId,
    target: DetailTarget,
    resource_name: String,
    title: String,
    content: DetailContent,
    scroll: u16,
    selection: Option<DetailSelection>,
}

impl View for ResourceDetailsState {
    type V = DetailsModel;

    closed spec fn view(&self) -> DetailsModel {
        DetailsModel {
            request_id: self.request_id,
            provider_id: self.provider_id@,
            target: self.target@,
            resource_name: self.resource_name@,
            title: self.title@,
            content: self.content@,
            scroll: self.scroll,
            selection: self.selection,
        }
    }
}

impl ResourceDetailsState {
    fn is_loading_request(
        &self,
        request_id: ProviderRequestId,
        provider_id: &ProviderId,
        target: &ResourceTarget,
        view_id: &DetailViewId,
    ) -> (answer: bool)
        ensures
            answer == self@.awaits(
                LoadRequestModel {
                    request_id,
                    provider_id: provider_id@,
                    target: DetailTargetModel { resource: target@, view_id: view_id@ },
                },
            ),
    {
        let loading = match &self.content {
            DetailContent::Loading => true,
            _ => false,
        };
        let same_request = match self.request_id {
            Some(pending) => pending == request_id,
            None => false,
        };
        loading && same_request && self.provider_id.same(provider_id) && self.target.resource.same(
            target,
        ) && self.target.view_id.same(view_id)
    }

    fn is_loading(&self, load: &DetailLoad) -> (answer: bool)
        ensures
            answer == self@.awaits(load@),
    {
        self.is_loading_request(
            load.request_id,
            &load.provider_id,
            &load.target.resource,
            &load.target.view_id,
        )
    }
}

#[derive(Debug, PartialEq, Eq)]
struct DetailTarget {
    resource: ResourceTarget,
    view_id: DetailViewId,
}

impl View for DetailTarget {
    type V = DetailTargetModel;

    closed spec fn view(&self) -> DetailTargetModel {
        DetailTargetModel { resource: self.resource@, view_id: self.view_id@ }
    }
}

impl Clone for DetailTarget {
    fn clone(&self) -> (copy: Self)
        ensures
            copy == *self,
    {
        DetailTarget { resource: self.resource.clone(), view_id: self.view_id.clone() }
    }
}

impl DetailTarget {
    fn same(&self, other: &DetailTarget) -> (same: bool)
        ensures
            same == (self@ == other@),
    {
        self.resource.same(&other.resource) && self.view_id.same(&other.view_id)
    }
}

/// One request for Detail content, as the application dispatches it.
#[derive(Debug, PartialEq, Eq)]
pub struct DetailLoad {
    request_id: ProviderRequestId,
    provider_id: ProviderId,
    target: DetailTarget,
}

impl View for DetailLoad {
    type V = LoadRequestModel;

    closed spec fn view(&self) -> LoadRequestModel {
        LoadRequestModel {
            request_id: self.request_id,
            provider_id: self.provider_id@,
            target: self.target@,
        }
    }
}

/// A loaded detail or the failure in its place.
pub open spec fn result_view(result: Result<ResourceDetails, WorkspaceError>) -> Result<
    Seq<Seq<char>>,
    Seq<char>,
> {
    match result {
        Ok(details) => Ok(details@),
        Err(error) => Err(error@),
    }
}

impl DetailLoad {
    pub fn into_request_parts(self) -> (parts: (
        ProviderRequestId,
        ProviderId,
        ResourceTarget,
        DetailViewId,
    ))
        ensures
            self@ == (LoadRequestModel {
                request_id: parts.0,
                provider_id: parts.1@,
                target: DetailTargetModel { resource: parts.2@, view_id: parts.3@ },
            }),
    {
        (self.request_id, self.provider_id, self.target.resource, self.target.view_id)
    }

    pub fn completion(self, result: Result<ResourceDetails, WorkspaceError>) -> (completion:
        DetailCompletion)
        ensures
            completion@ == (CompletionModel { load: self@, result: result_view(result) }),
    {
        DetailCompletion { load: self, result }
    }
}

/// How one request for Detail content ended.
#[derive(Debug, PartialEq, Eq)]
pub struct DetailCompletion {
    load: DetailLoad,
    result: Result<ResourceDetails, WorkspaceError>,
}

impl View for DetailCompletion {
    type V = CompletionModel;

    closed spec fn view(&self) -> CompletionModel {
        CompletionModel { load: self.load@, result: result_view(self.result) }
    }
}

impl DetailCompletion {
    pub fn new(
        request_id: ProviderRequestId,
        provider_id: ProviderId,
        resource: ResourceTarget,
        view_id: DetailViewId,
        result: Result<ResourceDetails, WorkspaceError>,
    ) -> (completion: Self)
        ensures
            completion@ == (CompletionModel {
                load: LoadRequestModel {
                    request_id,
                    provider_id: provider_id@,
                    target: DetailTargetModel { resource: resource@, view_id: view_id@ },
                },
                result: result_view(result),
            }),
    {
        DetailCompletion {
            load: DetailLoad {
                request_id,
                provider_id,
                target: DetailTarget { resource, view_id },
            },
            result,
        }
    }
}

/// The Detail View Tab that the user chose.
#[derive(Debug, PartialEq, Eq)]
enum DetailTab {
    /// What the snapshot itself says of the Resource.
    Overview,
    View(DetailViewId),
    /// The Resource Shell Session of the Resource.
    Shell,
}

impl View for DetailTab {
    type V = TabModel;

    closed spec fn view(&self) -> TabModel {
        match self {
            DetailTab::Overview => TabModel::Overview,
            DetailTab::View(id) => TabModel::View(id@),
            DetailTab::Shell => TabModel::Shell,
        }
    }
}

/// All presentation-neutral state for one Provider Workspace.
#[derive(Debug, PartialEq, Eq)]
pub struct ProviderWorkspaceState {
    provider: Provider,
    load_state: WorkspaceLoadState,
    focused_resource_panel: Option<ResourcePanelId>,
    panel_navigation: Vec<ResourcePanelNavigation>,
    selected_tab: DetailTab,
    details: Option<ResourceDetailsState>,
}

impl View for ProviderWorkspaceState {
    type V = WorkspaceModel;

    closed spec fn view(&self) -> WorkspaceModel {
        WorkspaceModel {
            provider: self.provider@,
            load_state: self.load_state@,
            focused_resource_panel: opt_view(self.focused_resource_panel),
            panel_navigation: views(self.panel_navigation@),
            selected_tab: self.selected_tab@,
            details: opt_view(self.details),
        }
    }
}

fn navigation_position(
    navigation: &Vec<ResourcePanelNavigation>,
    panel_id: &ResourcePanelId,
) -> (found: Option<usize>)
    ensures
        found matches Some(i) ==> first_position(
            navigation_ids(views(navigation@)),
            panel_id@,
        ) == Some(i as int) && i < navigation.len(),
        found is None ==> first_position(navigation_ids(views(navigation@)), panel_id@) is None,
{
    let ghost all = views(navigation@);
    let ghost ids = navigation_ids(all);
    let mut i: usize = 0;
    while i < navigation.len()
        invariant
            i <= navigation.len(),
            all == views(navigation@),
            ids == navigation_ids(all),
            forall|j: int| 0 <= j < i ==> ids[j] != panel_id@,
        decreases navigation.len() - i,
    {
        assert(all[i as int] == navigation@[i as int]@);
        assert(ids[i as int] == navigation@[i as int].panel_id@);
        if navigation[i].panel_id.same(panel_id) {
            proof {
                lemma_first_position_found(ids, panel_id@, i as int);
            }
            return Some(i);
        }
        i = i + 1;
    }
    proof {
        lemma_first_position_none(ids, panel_id@);
    }
    None
}

/// The identity of a panel's first Resource.
fn first_resource_id(panel: &ResourcePanel) -> (id: Option<ResourceId>)
    ensures
        opt_view(id) == first_resource(panel@),
{
    if panel.resources.len() > 0 {
        assert(panel@.resources[0] == panel.resources@[0]@);
        Some(panel.resources[0].id.clone())
    } else {
        None
    }
}

fn resource_index(panel: &ResourcePanel, selected: &Option<ResourceId>) -> (index: Option<usize>)
    ensures
        index matches Some(i) ==> selected_position(panel@, opt_view(*selected)) == Some(i as int)
            && i < panel.resources.len(),
        index is None ==> selected_position(panel@, opt_view(*selected)) is None,
{
    match selected {
        Some(id) => panel.resource_position(id),
        None => None,
    }
}

fn moved_entry(
    entry: &ResourcePanelNavigation,
    panel: &ResourcePanel,
    delta: isize,
) -> (moved: ResourcePanelNavigation)
    ensures
        moved@ == moved_navigation(entry@, panel@, delta as int),
{
    match resource_index(panel, &entry.selected_resource) {
        Some(current) => {
            let next = clamp_step(current, delta, panel.resources.len() - 1);
            assert(panel@.resources[next as int] == panel.resources@[next as int]@);
            ResourcePanelNavigation {
                panel_id: entry.panel_id.clone(),
                selected_resource: Some(panel.resources[next].id.clone()),
                selected_index: next,
            }
        },
        // Nothing valid was selected, so start at the top.
        None => ResourcePanelNavigation {
            panel_id: entry.panel_id.clone(),
            selected_resource: first_resource_id(panel),
            selected_index: 0,
        },
    }
}

fn reconciled_entry(
    previous: &Vec<ResourcePanelNavigation>,
    panel: &ResourcePanel,
) -> (entry: ResourcePanelNavigation)
    ensures
        entry@ == reconciled_navigation(views(previous@), panel@),
{
    let remembered: Option<ResourceId> = match navigation_position(previous, &panel.id) {
        Some(i) => {
            assert(views(previous@)[i as int] == previous@[i as int]@);
            match &previous[i].selected_resource {
                Some(id) => Some(id.clone()),
                None => None,
            }
        },
        None => None,
    };
    let selected = match resource_index(panel, &remembered) {
        Some(_) => remembered,
        None => first_resource_id(panel),
    };
    let selected_index: usize = match resource_index(panel, &selected) {
        Some(i) => i,
        None => 0,
    };
    ResourcePanelNavigation {
        panel_id: panel.id.clone(),
        selected_resource: selected,
        selected_index,
    }
}

impl ProviderWorkspaceState {
    pub fn new(provider: Provider, error: Option<WorkspaceError>) -> (workspace: Self)
        ensures
            workspace@ == WorkspaceModel::new(provider@, opt_view(error)),
    {
        let load_state = match error {
            Some(error) => WorkspaceLoadState::Error(error),
            None => WorkspaceLoadState::Loading,
        };
        let workspace = ProviderWorkspaceState {
            provider,
            load_state,
            focused_resource_panel: None,
            panel_navigation: Vec::new(),
            selected_tab: DetailTab::Overview,
            details: None,
        };
        assert(workspace@.panel_navigation =~= Seq::empty());
        workspace
    }

    pub fn load_state(&self) -> (state: &WorkspaceLoadState)
        ensures
            state@ == self@.load_state,
    {
        &self.load_state
    }

    pub fn id(&self) -> (id: &ProviderId)
        ensures
            id@ == self@.provider.id,
    {
        self.provider.id()
    }

    pub fn name(&self) -> (name: &str)
        ensures
            name@ == self@.provider.name,
    {
        self.provider.name()
    }

    pub fn target_environment(&self) -> (target: Option<&TargetEnvironment>)
        ensures
            opt_view(target) == self@.provider.target_environment,
    {
        self.provider.target_environment()
    }

    pub fn version(&self) -> (version: Option<&ProviderVersion>)
        ensures
            opt_view(version) == self@.provider.version,
    {
        self.provider.version()
    }

    /// Checks the private, authoritative Detail load identity without exposing
    /// a second pending-request state to the host.
    pub fn is_loading_detail(
        &self,
        request_id: ProviderRequestId,
        provider_id: &ProviderId,
        target: &ResourceTarget,
        view_id: &DetailViewId,
    ) -> (answer: bool)
        ensures
            answer == (self@.details matches Some(details) && details.awaits(
                LoadRequestModel {
                    request_id,
                    provider_id: provider_id@,
                    target: DetailTargetModel { resource: target@, view_id: view_id@ },
                },
            )),
    {
        match &self.details {
            Some(details) => details.is_loading_request(request_id, provider_id, target, view_id),
            None => false,
        }
    }

    pub fn focused_resource_panel(&self) -> (panel: Option<&ResourcePanelId>)
        ensures
            opt_view(panel) == self@.focused_resource_panel,
    {
        self.focused_resource_panel.as_ref()
    }

    pub fn focused_resource_panel_index(&self) -> (index: Option<usize>)
        ensures
            index matches Some(i) ==> self@.focused_panel_index() == Some(i as int),
            index is None ==> self@.focused_panel_index() is None,
    {
        match &self.load_state {
            WorkspaceLoadState::Ready(snapshot) => match &self.focused_resource_panel {
                Some(focused) => snapshot.panel_position(focused),
                None => None,
            },
            _ => None,
        }
    }

    /// The number of Resource Panels when the workspace is ready.
    pub fn resource_panel_count(&self) -> (count: Option<usize>)
        ensures
            count matches Some(n) ==> (self@.load_state matches LoadModel::Ready(panels)
                && panels.len() == n),
            count is None ==> !(self@.load_state is Ready),
    {
        match &self.load_state {
            WorkspaceLoadState::Ready(snapshot) => Some(snapshot.panels.len()),
            _ => None,
        }
    }

    /// Records a transient refresh failure while retaining stable presentation
    /// choices for the next successful reconciliation.
    pub fn record_load_error(&mut self, error: WorkspaceError)
        ensures
            final(self)@ == old(self)@.with_load_error(error@),
    {
        self.load_state = WorkspaceLoadState::Error(error);
        self.invalidate_pending_detail();
    }

    /// Rejects a snapshot whose shape Tuivir cannot represent.
    pub fn reject_snapshot(&mut self, error: WorkspaceError)
        ensures
            final(self)@ == old(self)@.with_rejected_snapshot(error@),
    {
        self.load_state = WorkspaceLoadState::Error(error);
        self.focused_resource_panel = None;
        self.panel_navigation = Vec::new();
        self.selected_tab = DetailTab::Overview;
        self.details = None;
        assert(self@.panel_navigation =~= Seq::empty());
    }

    /// Refuses the pending detail result after its Provider Workspace is left.
    pub fn invalidate_pending_detail(&mut self)
        ensures
            final(self)@ == old(self)@.without_pending_detail(),
    {
        let pending = match &self.details {
            Some(details) => match &details.content {
                DetailContent::Loading => true,
                _ => false,
            },
            None => false,
        };
        if pending {
            self.details = None;
        }
    }

    /// Refuses a pending load that no longer describes what is on screen.
    fn settle(&mut self, previous: Option<DetailTarget>, Ghost(before): Ghost<WorkspaceModel>)
        requires
            opt_view(previous) == before.visible_identity(),
        ensures
            final(self)@ == old(self)@.settled_since(before),
    {
        let unchanged = match (self.visible_detail_identity(), &previous) {
            (Some(now), Some(earlier)) => now.same(earlier),
            (None, None) => true,
            _ => false,
        };
        if !unchanged {
            self.invalidate_pending_detail();
        }
    }

    fn visible_detail_identity(&self) -> (identity: Option<DetailTarget>)
        ensures
            opt_view(identity) == self@.visible_identity(),
    {
        match &self.selected_tab {
            DetailTab::View(view_id) => match self.selected_resource_target() {
                Some(resource) => Some(DetailTarget { resource, view_id: view_id.clone() }),
                None => None,
            },
            _ => None,
        }
    }

    pub fn selected_resource_target(&self) -> (target: Option<ResourceTarget>)
        ensures
            opt_view(target) == self@.selected_target(),
    {
        match &self.focused_resource_panel {
            Some(panel_id) => match navigation_position(&self.panel_navigation, panel_id) {
                Some(i) => {
                    assert(self@.panel_navigation[i as int] == self.panel_navigation@[i as int]@);
                    match &self.panel_navigation[i].selected_resource {
                        Some(resource_id) => Some(
                            ResourceTarget::new(panel_id.clone(), resource_id.clone()),
                        ),
                        None => None,
                    }
                },
                None => None,
            },
            None => None,
        }
    }

    pub fn selected_resource(&self) -> (resource: Option<&Resource>)
        ensures
            opt_view(resource) == self@.selected_resource(),
    {
        match self.selected_resource_target() {
            Some(target) => match &self.load_state {
                WorkspaceLoadState::Ready(snapshot) => snapshot.resource(&target),
                _ => None,
            },
            None => None,
        }
    }

    fn offers_shell(&self) -> (answer: bool)
        ensures
            answer == self@.offers_shell(),
    {
        match self.selected_resource() {
            Some(resource) => resource.shell.is_some(),
            None => false,
        }
    }

    /// Whether the Shell Detail View Tab of the selected Resource is on screen.
    pub fn selected_resource_shell_tab(&self) -> (answer: bool)
        ensures
            answer == self@.shows_shell(),
    {
        let chosen = match &self.selected_tab {
            DetailTab::Shell => true,
            _ => false,
        };
        chosen && self.offers_shell()
    }

    /// Brings up the Shell Detail View Tab where the selected Resource has a
    /// shell to show.
    pub fn select_resource_shell_tab(&mut self) -> (selected: bool)
        ensures
            final(self)@ == old(self)@.with_shell_tab(),
            selected == old(self)@.offers_shell(),
    {
        if !self.offers_shell() {
            return false;
        }
        let ghost before = self@;
        let previous = self.visible_detail_identity();
        self.selected_tab = DetailTab::Shell;
        self.settle(previous, Ghost(before));
        true
    }

    /// Keeps a tab only while a panel offers it.
    fn keep_tab(tab: DetailTab, panel: Option<&ResourcePanel>) -> (kept: DetailTab)
        ensures
            kept@ == kept_tab(opt_view(panel), tab@),
    {
        let keeps = match &tab {
            DetailTab::View(id) => match panel {
                Some(panel) => {
                    proof {
                        lemma_first_position(view_ids(panel@.detail_views), id@);
                    }
                    panel.view_position(id).is_some()
                },
                None => false,
            },
            _ => true,
        };
        if keeps {
            tab
        } else {
            DetailTab::Overview
        }
    }

    /// Takes the selected tab out, leaving the Overview.
    fn take_tab(&mut self) -> (tab: DetailTab)
        ensures
            tab@ == old(self)@.selected_tab,
            final(self)@ == (WorkspaceModel { selected_tab: TabModel::Overview, ..old(self)@ }),
    {
        let mut tab = DetailTab::Overview;
        std::mem::swap(&mut tab, &mut self.selected_tab);
        tab
    }

    /// Focuses an existing Resource Panel and restores its remembered Resource
    /// selection. A stale panel identity changes nothing.
    pub fn focus_resource_panel(&mut self, panel_id: &ResourcePanelId) -> (focused: bool)
        ensures
            final(self)@ == old(self)@.with_focus(panel_id@),
            focused == old(self)@.can_focus(panel_id@),
    {
        let ghost before = self@;
        let previous = self.visible_detail_identity();
        let tab = self.take_tab();
        let panel = match &self.load_state {
            WorkspaceLoadState::Ready(snapshot) => snapshot.panel(panel_id),
            _ => None,
        };
        proof {
            if let LoadModel::Ready(panels) = before.load_state {
                lemma_first_position(panel_ids(panels), panel_id@);
            }
        }
        match panel {
            Some(panel) => {
                self.selected_tab = ProviderWorkspaceState::keep_tab(tab, Some(panel));
            },
            None => {
                self.selected_tab = tab;
                return false;
            },
        }
        self.focused_resource_panel = Some(panel_id.clone());
        self.settle(previous, Ghost(before));
        true
    }

    fn panel_id_at(&self, index: usize) -> (id: Option<ResourcePanelId>)
        ensures
            opt_view(id) == self@.panel_id_at(index as int),
    {
        match &self.load_state {
            WorkspaceLoadState::Ready(snapshot) => {
                if index < snapshot.panels.len() {
                    assert(snapshot@[index as int] == snapshot.panels@[index as int]@);
                    Some(snapshot.panels[index].id.clone())
                } else {
                    None
                }
            },
            _ => None,
        }
    }

    /// Focuses one Resource Panel by its Provider-defined order.
    pub fn focus_resource_panel_at(&mut self, index: usize) -> (focused: bool)
        ensures
            final(self)@ == (match old(self)@.panel_id_at(index as int) {
                Some(id) => old(self)@.with_focus(id),
                None => old(self)@,
            }),
            focused == (old(self)@.panel_id_at(index as int) is Some),
    {
        match self.panel_id_at(index) {
            Some(panel_id) => {
                proof {
                    let panels = self@.load_state->Ready_0;
                    assert(panel_ids(panels)[index as int] == panel_id@);
                }
                self.focus_resource_panel(&panel_id)
            },
            None => false,
        }
    }

    /// Moves the selected Resource within the focused panel and clamps at its
    /// ends. Every other panel keeps its own selection and scroll.
    pub fn move_resource_selection(&mut self, delta: isize)
        ensures
            final(self)@ == old(self)@.with_focused_selection_moved(delta as int),
    {
        let panel_id = match &self.focused_resource_panel {
            Some(id) => id.clone(),
            None => return,
        };
        self.move_selection_within(&panel_id, delta);
    }

    /// Moves the selection inside one named Resource Panel.
    ///
    /// The panel is named rather than taken from focus, so moving a Panel the
    /// user is only pointing at cannot be mistaken for moving the focused one,
    /// and so cannot abandon the focused Resource's detail load.
    fn move_selection_within(&mut self, panel_id: &ResourcePanelId, delta: isize)
        ensures
            final(self)@ == old(self)@.with_moved_selection(panel_id@, delta as int),
    {
        let ghost before = self@;
        let previous = self.visible_detail_identity();
        let panel = match &self.load_state {
            WorkspaceLoadState::Ready(snapshot) => match snapshot.panel(panel_id) {
                Some(panel) => panel,
                None => return,
            },
            _ => return,
        };
        let index = match navigation_position(&self.panel_navigation, panel_id) {
            Some(index) => index,
            None => return,
        };
        assert(before.panel_navigation[index as int] == self.panel_navigation@[index as int]@);
        let moved = moved_entry(&self.panel_navigation[index], panel, delta);
        self.panel_navigation.set(index, moved);
        assert(self@.panel_navigation =~= before.panel_navigation.update(index as int, moved@));
        self.settle(previous, Ghost(before));
    }

    /// Selects a Resource by its current Provider order without changing any
    /// other panel's remembered selection or scroll position.
    pub fn select_resource_at(&mut self, index: usize)
        ensures
            final(self)@ == old(self)@.with_resource_selected_at(index as int),
    {
        let ghost before = self@;
        let previous = self.visible_detail_identity();
        let panel_id = match &self.focused_resource_panel {
            Some(panel_id) => panel_id,
            None => return,
        };
        let panel = match &self.load_state {
            WorkspaceLoadState::Ready(snapshot) => match snapshot.panel(panel_id) {
                Some(panel) => panel,
                None => return,
            },
            _ => return,
        };
        if index >= panel.resources.len() {
            return;
        }
        assert(panel@.resources[index as int] == panel.resources@[index as int]@);
        let entry = match navigation_position(&self.panel_navigation, panel_id) {
            Some(entry) => entry,
            None => return,
        };
        assert(before.panel_navigation[entry as int] == self.panel_navigation@[entry as int]@);
        let selected = ResourcePanelNavigation {
            panel_id: self.panel_navigation[entry].panel_id.clone(),
            selected_resource: Some(panel.resources[index].id.clone()),
            selected_index: index,
        };
        self.panel_navigation.set(entry, selected);
        assert(self@.panel_navigation =~= before.panel_navigation.update(entry as int, selected@));
        self.settle(previous, Ghost(before));
    }

    /// The focused panel, while the Workspace is ready.
    fn focused_panel(&self) -> (panel: Option<&ResourcePanel>)
        ensures
            opt_view(panel) == self@.focused_panel(),
    {
        match &self.focused_resource_panel {
            Some(panel_id) => match &self.load_state {
                WorkspaceLoadState::Ready(snapshot) => snapshot.panel(panel_id),
                _ => None,
            },
            None => None,
        }
    }

    /// The tab at a position of a panel's tabs.
    fn tab_at(panel: &ResourcePanel, has_shell: bool, index: u128) -> (tab: DetailTab)
        ensures
            tab@ == (match get(tabs_of(panel@, has_shell), index as int) {
                Some(tab) => tab,
                None => TabModel::Overview,
            }),
    {
        let ghost tabs = tabs_of(panel@, has_shell);
        if index == 0 {
            return DetailTab::Overview;
        }
        if index - 1 < panel.detail_views.len() as u128 {
            let declared: usize = (index - 1) as usize;
            assert(panel@.detail_views[index - 1] == panel.detail_views@[index - 1]@);
            return DetailTab::View(panel.detail_views[declared].id.clone());
        }
        if has_shell && index - 1 == panel.detail_views.len() as u128 {
            return DetailTab::Shell;
        }
        DetailTab::Overview
    }

    /// Where a panel's tabs hold a tab; a tab they do not hold counts as the
    /// first.
    fn tab_position(panel: &ResourcePanel, has_shell: bool, tab: &DetailTab) -> (position: u128)
        ensures
            position == (match first_position(tabs_of(panel@, has_shell), tab@) {
                Some(i) => i,
                None => 0,
            }),
            position < tabs_of(panel@, has_shell).len(),
    {
        let ghost tabs = tabs_of(panel@, has_shell);
        let ghost declared = panel@.detail_views;
        assert(forall|i: int|
            0 <= i < declared.len() ==> #[trigger] tabs[i + 1] == TabModel::View(declared[i].id));
        proof {
            lemma_first_position(tabs, tab@);
        }
        match tab {
            DetailTab::Overview => {
                proof {
                    lemma_first_position_found(tabs, tab@, 0);
                }
                0
            },
            DetailTab::View(id) => {
                let ghost ids = view_ids(declared);
                proof {
                    lemma_first_position(ids, id@);
                    assert(forall|i: int| 0 <= i < declared.len() ==> ids[i] == declared[i].id);
                }
                match panel.view_position(id) {
                    Some(i) => {
                        proof {
                            assert(tabs[i + 1] == tab@);
                            assert forall|j: int| 0 <= j < i + 1 implies tabs[j] != tab@ by {
                                if j > 0 {
                                    assert(ids[j - 1] != id@);
                                    assert(tabs[(j - 1) + 1] == TabModel::View(
                                        declared[j - 1].id,
                                    ));
                                }
                            }
                            lemma_first_position_found(tabs, tab@, i + 1);
                        }
                        i as u128 + 1
                    },
                    None => {
                        proof {
                            assert forall|j: int| 0 <= j < tabs.len() implies tabs[j] != tab@ by {
                                if 0 < j && j - 1 < declared.len() {
                                    assert(ids[j - 1] != id@);
                                    assert(tabs[(j - 1) + 1] == TabModel::View(
                                        declared[j - 1].id,
                                    ));
                                }
                            }
                            lemma_first_position_none(tabs, tab@);
                        }
                        0
                    },
                }
            },
            DetailTab::Shell => {
                proof {
                    assert forall|j: int| 0 <= j < declared.len() + 1 implies tabs[j] != tab@ by {
                        if 0 < j {
                            assert(tabs[(j - 1) + 1] == TabModel::View(declared[j - 1].id));
                        }
                    }
                }
                if has_shell {
                    proof {
                        assert(tabs[declared.len() as int + 1] == TabModel::Shell);
                        lemma_first_position_found(tabs, tab@, declared.len() as int + 1);
                    }
                    panel.detail_views.len() as u128 + 1
                } else {
                    proof {
                        lemma_first_position_none(tabs, tab@);
                    }
                    0
                }
            },
        }
    }

    /// Moves through the focused panel's tabs as a ring.
    pub fn move_detail_view(&mut self, delta: isize)
        ensures
            final(self)@ == old(self)@.with_tab_moved(delta as int),
    {
        let ghost before = self@;
        let previous = self.visible_detail_identity();
        let has_shell = self.offers_shell();
        let panel = match self.focused_panel() {
            Some(panel) => panel,
            None => return,
        };
        let current = ProviderWorkspaceState::tab_position(panel, has_shell, &self.selected_tab);
        let count: u128 = panel.detail_views.len() as u128 + if has_shell {
            2u128
        } else {
            1u128
        };
        assert(count == tabs_of(panel@, has_shell).len());
        let next = ring_step(current, delta, count);
        let tab = ProviderWorkspaceState::tab_at(panel, has_shell, next);
        self.selected_tab = tab;
        self.settle(previous, Ghost(before));
    }

    /// Selects one of the focused panel's tabs by its position.
    pub fn select_detail_view_at(&mut self, index: usize)
        ensures
            final(self)@ == old(self)@.with_tab_selected_at(index as int),
    {
        let ghost before = self@;
        let previous = self.visible_detail_identity();
        let has_shell = self.offers_shell();
        let panel = match self.focused_panel() {
            Some(panel) => panel,
            None => return,
        };
        let tab = ProviderWorkspaceState::tab_at(panel, has_shell, index as u128);
        self.selected_tab = tab;
        self.settle(previous, Ghost(before));
    }

    /// Moves the selection inside the Resource Panel at one provider-defined
    /// position, leaving focus where the keyboard left it.
    pub fn move_resource_selection_at(&mut self, panel_index: usize, delta: isize)
        ensures
            final(self)@ == old(self)@.with_selection_moved_at(panel_index as int, delta as int),
    {
        match self.panel_id_at(panel_index) {
            Some(panel_id) => self.move_selection_within(&panel_id, delta),
            None => {},
        }
    }

    /// The target, Resource name, and declared view that the selected tab
    /// shows.
    fn detail_target(&self) -> (shown: Option<(DetailTarget, String, DetailView)>)
        ensures
            shown matches Some(shown) ==> {
                &&& self@.detail_target() matches Some((resource, view))
                &&& Some(shown.0@) == self@.visible_identity()
                &&& shown.1@ == resource.name
                &&& shown.2@ == view
            },
            shown is None ==> self@.detail_target() is None,
    {
        let snapshot = match &self.load_state {
            WorkspaceLoadState::Ready(snapshot) => snapshot,
            _ => return None,
        };
        let identity = match self.visible_detail_identity() {
            Some(identity) => identity,
            None => return None,
        };
        let resource = match snapshot.resource(&identity.resource) {
            Some(resource) => resource,
            None => return None,
        };
        let panel = match snapshot.panel_for(&identity.resource) {
            Some(panel) => panel,
            None => return None,
        };
        match panel.detail_view(&identity.view_id) {
            Some(view) => Some((identity, resource.name.clone(), view.clone())),
            None => None,
        }
    }

    /// The content of a Detail View that the snapshot already carries.
    fn carried_content(&self, target: &DetailTarget) -> (content: Option<ResourceDetails>)
        ensures
            opt_view(content) == self@.carried(target@),
    {
        match &self.load_state {
            WorkspaceLoadState::Ready(snapshot) => snapshot.snapshot_detail(
                &target.resource,
                &target.view_id,
            ),
            _ => None,
        }
    }

    /// Puts a Detail View on screen, scrolled to its top.
    fn show_details(
        &mut self,
        request_id: Option<ProviderRequestId>,
        target: DetailTarget,
        resource_name: String,
        title: String,
        content: DetailContent,
    )
        ensures
            final(self)@ == (WorkspaceModel {
                details: Some(
                    DetailsModel {
                        request_id,
                        provider_id: old(self)@.provider.id,
                        target: target@,
                        resource_name: resource_name@,
                        title: title@,
                        content: content@,
                        scroll: 0,
                        selection: None,
                    },
                ),
                ..old(self)@
            }),
    {
        let provider_id = self.provider.id().clone();
        self.details = Some(
            ResourceDetailsState {
                request_id,
                provider_id,
                target,
                resource_name,
                title,
                content,
                scroll: 0,
                selection: None,
            },
        );
    }

    /// Starts a load only when the visible Resource and Detail View are not
    /// already loaded or pending. The application supplies the request ID and
    /// dispatches the returned work.
    pub fn start_visible_detail_load(&mut self, request_id: ProviderRequestId) -> (load: Option<
        DetailLoad,
    >)
        ensures
            final(self)@ == old(self)@.with_visible_details(request_id),
            opt_view(load) == old(self)@.detail_load(request_id),
    {
        let (target, resource_name, view) = match self.detail_target() {
            Some(shown) => shown,
            None => {
                self.details = None;
                return None;
            },
        };
        let describes_target = match &self.details {
            Some(details) => details.target.same(&target),
            None => false,
        };
        if describes_target {
            return None;
        }
        let carried = self.carried_content(&target);
        match carried {
            Some(content) => {
                self.show_details(
                    None,
                    target,
                    resource_name,
                    view.title,
                    DetailContent::Ready(content),
                );
                None
            },
            None => {
                let load = DetailLoad {
                    request_id,
                    provider_id: self.provider.id().clone(),
                    target: target.clone(),
                };
                self.show_details(
                    Some(request_id),
                    target,
                    resource_name,
                    view.title,
                    DetailContent::Loading,
                );
                Some(load)
            },
        }
    }

    /// Accepts a detail completion only while its full request identity still
    /// describes the visible load.
    pub fn complete_detail_load(&mut self, completion: DetailCompletion)
        ensures
            final(self)@ == old(self)@.with_completion(completion@),
    {
        let awaited = match &self.details {
            Some(details) => details.is_loading(&completion.load),
            None => false,
        };
        if !awaited {
            return;
        }
        let content = match completion.result {
            Ok(loaded) => DetailContent::Ready(loaded),
            Err(error) => DetailContent::Error(error),
        };
        match self.details.take() {
            Some(details) => {
                self.details = Some(ResourceDetailsState { request_id: None, content, ..details });
            },
            None => {},
        }
    }

    /// Moves the first visible detail line without scrolling beyond content.
    pub fn scroll_details(&mut self, delta: isize)
        ensures
            final(self)@ == old(self)@.with_details_scrolled(delta as int),
    {
        match self.details.take() {
            Some(details) => {
                let last_line: usize = match &details.content {
                    DetailContent::Ready(loaded) => {
                        assert(loaded@.len() == loaded.lines.len());
                        loaded.lines.len().saturating_sub(1)
                    },
                    _ => 0,
                };
                let scroll: usize = clamp_step(details.scroll as usize, delta, last_line) % 0x10000;
                self.details = Some(ResourceDetailsState { scroll: scroll as u16, ..details });
            },
            None => {},
        }
    }

    pub fn begin_detail_selection(&mut self, line: u16, column: u16)
        ensures
            final(self)@ == old(self)@.with_selection_begun(line, column),
    {
        match self.details.take() {
            Some(details) => {
                let line = details.scroll.saturating_add(line);
                match detail_position(&details.content, line, column) {
                    Some(position) => {
                        self.details = Some(
                            ResourceDetailsState {
                                selection: Some(
                                    DetailSelection { start: position, end: position },
                                ),
                                ..details
                            },
                        );
                    },
                    None => {
                        self.details = Some(details);
                    },
                }
            },
            None => {},
        }
    }

    pub fn extend_detail_selection(&mut self, line: u16, column: u16)
        ensures
            final(self)@ == old(self)@.with_selection_extended(line, column),
    {
        match self.details.take() {
            Some(details) => {
                let line = details.scroll.saturating_add(line);
                match (detail_position(&details.content, line, column), details.selection) {
                    (Some(position), Some(selection)) => {
                        self.details = Some(
                            ResourceDetailsState {
                                selection: Some(
                                    DetailSelection { start: selection.start, end: position },
                                ),
                                ..details
                            },
                        );
                    },
                    _ => {
                        self.details = Some(details);
                    },
                }
            },
            None => {},
        }
    }

    pub fn clear_detail_selection(&mut self)
        ensures
            final(self)@ == old(self)@.without_selection(),
    {
        match self.details.take() {
            Some(details) => {
                self.details = Some(ResourceDetailsState { selection: None, ..details });
            },
            None => {},
        }
    }

    pub fn selected_detail_text(&self) -> (text: Option<String>)
        ensures
            opt_view(text) == self@.selected_text(),
    {
        match &self.details {
            Some(details) => match (&details.content, details.selection) {
                (DetailContent::Ready(loaded), Some(selection)) => selected_text(
                    &loaded.lines,
                    &selection,
                ),
                _ => None,
            },
            None => None,
        }
    }

    /// Replaces Provider data while preserving every still-valid presentation
    /// choice by stable Provider identity.
    pub fn reconcile_snapshot(&mut self, snapshot: WorkspaceSnapshot)
        ensures
            final(self)@ == old(self)@.reconciled(snapshot@),
    {
        let ghost before = self@;
        let ghost panels = snapshot@;
        let previous = self.visible_detail_identity();
        let mut navigation: Vec<ResourcePanelNavigation> = Vec::new();
        let mut i: usize = 0;
        let ghost all = reconciled_navigations(before.panel_navigation, panels);
        assert(views(navigation@) =~= all.take(0));
        while i < snapshot.panels.len()
            invariant
                i <= snapshot.panels.len(),
                panels == snapshot@,
                before.panel_navigation == views(self.panel_navigation@),
                all == reconciled_navigations(before.panel_navigation, panels),
                views(navigation@) == all.take(i as int),
            decreases snapshot.panels.len() - i,
        {
            let ghost earlier = navigation@;
            let entry = reconciled_entry(&self.panel_navigation, &snapshot.panels[i]);
            proof {
                assert(panels[i as int] == snapshot.panels@[i as int]@);
                assert(entry@ == all[i as int]);
                assert(all.take(i + 1) =~= all.take(i as int).push(all[i as int]));
            }
            navigation.push(entry);
            assert(views(navigation@) =~= views(earlier).push(entry@));
            i = i + 1;
        }
        assert(all.take(i as int) =~= all);
        self.panel_navigation = navigation;
        proof {
            if let Some(id) = before.focused_resource_panel {
                lemma_first_position(panel_ids(panels), id);
            }
        }
        let focused_still_exists = match &self.focused_resource_panel {
            Some(focused) => snapshot.panel_position(focused).is_some(),
            None => false,
        };
        if !focused_still_exists {
            self.focused_resource_panel = if snapshot.panels.len() > 0 {
                assert(panels[0] == snapshot.panels@[0]@);
                Some(snapshot.panels[0].id.clone())
            } else {
                None
            };
        }
        let tab = self.take_tab();
        let kept = match self.selected_resource_target() {
            Some(selected) => ProviderWorkspaceState::keep_tab(tab, snapshot.panel_for(&selected)),
            None => ProviderWorkspaceState::keep_tab(tab, None),
        };
        self.selected_tab = kept;
        self.load_state = WorkspaceLoadState::Ready(snapshot);
        self.settle(previous, Ghost(before));
    }
}

/// The position inside loaded content that a line and a column name.
fn detail_position(content: &DetailContent, line: u16, column: u16) -> (position: Option<
    DetailPosition,
>)
    ensures
        position == position_in(content@, line, column),
{
    let loaded = match content {
        DetailContent::Ready(loaded) => loaded,
        _ => return None,
    };
    let index: usize = line as usize;
    if index >= loaded.lines.len() {
        return None;
    }
    assert(loaded@[index as int] == loaded.lines@[index as int]@);
    let width: usize = loaded.lines[index].as_str().unicode_len() % 0x10000;
    let limit: u16 = width as u16;
    Some(
        DetailPosition {
            line,
            column: if column <= limit {
                column
            } else {
                limit
            },
        },
    )
}

/// The part of one line that lies between two positions.
fn part_of_line(text: &str, line: u16, start: DetailPosition, end: DetailPosition) -> (part: &str)
    ensures
        part@ == line_part(text@, line as int, start, end),
{
    let count: usize = text.unicode_len();
    let from: usize = if line == start.line {
        start.column as usize
    } else {
        0
    };
    let to: usize = if line == end.line {
        end.column as usize
    } else {
        count
    };
    let first: usize = if from < count {
        from
    } else {
        count
    };
    let last: usize = if to < first {
        first
    } else if to > count {
        count
    } else {
        to
    };
    text.substring_char(first, last)
}

/// The text that a selection covers.
fn selected_text(lines: &Vec<String>, selection: &DetailSelection) -> (text: Option<String>)
    ensures
        opt_view(text) == selection_text(views(lines@), *selection),
{
    let ordered = selection.start.line < selection.end.line || (selection.start.line
        == selection.end.line && selection.start.column <= selection.end.column);
    let (start, end) = if ordered {
        (selection.start, selection.end)
    } else {
        (selection.end, selection.start)
    };
    if start == end || end.line as usize >= lines.len() {
        return None;
    }
    let ghost all = views(lines@);
    let ghost parts = parts_between(all, start, end);
    let mut text = String::new();
    let mut line: u16 = start.line;
    assert(parts.take(0) =~= Seq::empty());
    while line <= end.line
        invariant_except_break
            start.line <= line <= end.line,
            end.line < lines.len(),
            all == views(lines@),
            parts == parts_between(all, start, end),
            text@ == joined(parts.take(line - start.line), "\n"@),
        ensures
            text@ == joined(parts, "\n"@),
        decreases end.line - line,
    {
        let ghost done = line - start.line;
        if line > start.line {
            text.append("\n");
        }
        assert(all[line as int] == lines@[line as int]@);
        text.append(part_of_line(lines[line as usize].as_str(), line, start, end));
        proof {
            assert(parts[done] == line_part(all[line as int], line as int, start, end));
            assert(parts.take(done + 1).drop_last() =~= parts.take(done));
            assert(parts.take(done + 1).last() == parts[done]);
            if done == 0 {
                assert(text@ =~= parts[0]);
                assert(parts.take(1)[0] == parts[0]);
            }
            assert(text@ =~= joined(parts.take(done + 1), "\n"@));
        }
        if line == end.line {
            assert(parts.take(done + 1) =~= parts);
            break;
        }
        line = line + 1;
    }
    Some(text)
}

} // verus!
