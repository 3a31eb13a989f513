//! The read-only projection of a Provider Workspace that presentation draws.

use vstd::prelude::*;
use vstd::string::*;

use super::model::{
    find_navigation, ContentModel, DetailsModel, LoadModel, NavigationModel, TabModel,
    WorkspaceModel,
};
use super::{
    navigation_position, DetailContent, DetailSelection, DetailTab, ProviderWorkspaceState,
    ResourceDetailsState, ResourcePanelNavigation, WorkspaceLoadState,
};
use crate::application::provider::{
    find_panel, find_resource, find_view, DetailView, DetailViewModel, PanelModel, Resource,
    ResourceModel, ResourcePanel, WorkspaceError, WorkspaceSnapshot,
};
use crate::domain::{
    ProviderId, ProviderVersion, ResourceId, ResourcePanelId, TargetEnvironment, TargetModel,
};
use crate::text::{opt_view, views};

verus! {

/// The Detail View on screen, as it is drawn.
#[verifier::ext_equal]
pub struct ShownDetailsModel {
    pub resource_name: Seq<char>,
    pub title: Seq<char>,
    pub content: ContentModel,
    pub scroll: u16,
    pub selection: Option<DetailSelection>,
}

/// One Resource Panel with what it has selected.
#[verifier::ext_equal]
pub struct PanelViewModel {
    pub panel: PanelModel,
    pub selected_resource: Option<Seq<char>>,
    pub selected_index: int,
}

/// Everything presentation draws of a ready Workspace.
#[verifier::ext_equal]
pub struct WorkspaceViewModel {
    pub id: Seq<char>,
    pub name: Seq<char>,
    pub target_environment: Option<Seq<char>>,
    pub version: Option<Seq<char>>,
    pub focused_resource_panel: Option<Seq<char>>,
    pub panels: Seq<PanelViewModel>,
    pub selected_resource: Option<ResourceModel>,
    pub detail_views: Seq<DetailViewModel>,
    pub selected_detail_view: Option<DetailViewModel>,
    pub overview_selected: bool,
    pub shell_offered: bool,
    pub shell_selected: bool,
    pub details: Option<ShownDetailsModel>,
}

/// What is drawn of a Workspace, whatever state it is in.
#[verifier::ext_equal]
pub enum PresentationModel {
    Loading { name: Seq<char> },
    Ready(WorkspaceViewModel),
    Error { name: Seq<char>, error: Seq<char> },
}

/// One panel together with its navigation.
pub open spec fn panel_view(navigation: Seq<NavigationModel>, panel: PanelModel) -> PanelViewModel {
    match find_navigation(navigation, panel.id) {
        Some(entry) => PanelViewModel {
            panel,
            selected_resource: entry.selected_resource,
            selected_index: entry.selected_index,
        },
        None => PanelViewModel { panel, selected_resource: None, selected_index: 0 },
    }
}

pub open spec fn shown_details(details: DetailsModel) -> ShownDetailsModel {
    ShownDetailsModel {
        resource_name: details.resource_name,
        title: details.title,
        content: details.content,
        scroll: details.scroll,
        selection: details.selection,
    }
}

/// The Resource of a snapshot that is selected.
pub open spec fn selected_in(panels: Seq<PanelModel>, target: Option<TargetModel>) -> Option<
    ResourceModel,
> {
    match target {
        Some(target) => find_resource(panels, target),
        None => None,
    }
}

/// The panel of a snapshot that holds the selected Resource.
pub open spec fn selected_panel_in(panels: Seq<PanelModel>, target: Option<TargetModel>) -> Option<
    PanelModel,
> {
    match target {
        Some(target) => find_panel(panels, target.panel_id),
        None => None,
    }
}

/// The Detail Views declared for the selected Resource.
pub open spec fn declared_views(panel: Option<PanelModel>) -> Seq<DetailViewModel> {
    match panel {
        Some(panel) => panel.detail_views,
        None => Seq::empty(),
    }
}

/// The declared view that a tab shows.
pub open spec fn tab_view(panel: Option<PanelModel>, tab: TabModel) -> Option<DetailViewModel> {
    match (panel, tab) {
        (Some(panel), TabModel::View(id)) => find_view(panel, id),
        _ => None,
    }
}

pub open spec fn has_shell(resource: Option<ResourceModel>) -> bool {
    resource matches Some(resource) && resource.shell is Some
}

impl WorkspaceModel {
    /// The details, while they describe what is on screen.
    pub open spec fn visible_details(self) -> Option<ShownDetailsModel> {
        match self.details {
            Some(details) => if Some(details.target) == self.visible_identity() {
                Some(shown_details(details))
            } else {
                None
            },
            None => None,
        }
    }

    /// The presentation state projected against a snapshot.
    pub open spec fn projected(self, panels: Seq<PanelModel>) -> WorkspaceViewModel {
        let target = self.selected_target();
        let panel = selected_panel_in(panels, target);
        let resource = selected_in(panels, target);
        let shell_selected = self.selected_tab is Shell && has_shell(resource);
        WorkspaceViewModel {
            id: self.provider.id,
            name: self.provider.name,
            target_environment: self.provider.target_environment,
            version: self.provider.version,
            focused_resource_panel: self.focused_resource_panel,
            panels: panels.map_values(|panel: PanelModel| panel_view(self.panel_navigation, panel)),
            selected_resource: resource,
            detail_views: declared_views(panel),
            selected_detail_view: tab_view(panel, self.selected_tab),
            overview_selected: tab_view(panel, self.selected_tab) is None && !shell_selected,
            shell_offered: has_shell(resource),
            shell_selected,
            details: self.visible_details(),
        }
    }

    /// One coherent presentation state.
    pub open spec fn presented(self) -> PresentationModel {
        match self.load_state {
            LoadModel::Loading => PresentationModel::Loading { name: self.provider.name },
            LoadModel::Ready(panels) => PresentationModel::Ready(self.projected(panels)),
            LoadModel::Error(error) => PresentationModel::Error {
                name: self.provider.name,
                error,
            },
        }
    }
}

/// The read-only projection consumed by presentation and application callers.
pub struct WorkspaceView<'a> {
    pub id: &'a ProviderId,
    pub name: &'a str,
    pub target_environment: Option<&'a TargetEnvironment>,
    pub version: Option<&'a ProviderVersion>,
    pub focused_resource_panel: Option<&'a ResourcePanelId>,
    pub snapshot: &'a WorkspaceSnapshot,
    pub panel_navigation: &'a Vec<ResourcePanelNavigation>,
    pub selected_resource: Option<&'a Resource>,
    pub detail_views: &'a [DetailView],
    pub selected_detail_view: Option<&'a DetailView>,
    /// Whether the Overview tab is the one on screen.
    pub overview_selected: bool,
    /// Whether the selected Resource has a Shell tab.
    pub shell_offered: bool,
    pub shell_selected: bool,
    pub details: Option<ResourceDetailsView<'a>>,
}

impl<'a> View for WorkspaceView<'a> {
    type V = WorkspaceViewModel;

    open spec fn view(&self) -> WorkspaceViewModel {
        WorkspaceViewModel {
            id: self.id@,
            name: self.name@,
            target_environment: opt_view(self.target_environment),
            version: opt_view(self.version),
            focused_resource_panel: opt_view(self.focused_resource_panel),
            panels: self.snapshot@.map_values(
                |panel: PanelModel| panel_view(views(self.panel_navigation@), panel),
            ),
            selected_resource: opt_view(self.selected_resource),
            detail_views: views(self.detail_views@),
            selected_detail_view: opt_view(self.selected_detail_view),
            overview_selected: self.overview_selected,
            shell_offered: self.shell_offered,
            shell_selected: self.shell_selected,
            details: opt_view(self.details),
        }
    }
}

impl<'a> WorkspaceView<'a> {
    /// Every panel with what it has selected, in provider-defined order.
    pub fn panels(&self) -> (panels: Vec<ResourcePanelView<'a>>)
        ensures
            views(panels@) == self@.panels,
    {
        let mut panels: Vec<ResourcePanelView<'a>> = Vec::new();
        let ghost all = self@.panels;
        let ghost navigation = views(self.panel_navigation@);
        let mut i: usize = 0;
        assert(views(panels@) =~= all.take(0));
        while i < self.snapshot.panels.len()
            invariant
                i <= self.snapshot.panels.len(),
                all == self@.panels,
                navigation == views(self.panel_navigation@),
                all.len() == self.snapshot.panels.len(),
                views(panels@) == all.take(i as int),
            decreases self.snapshot.panels.len() - i,
        {
            let panel: &'a ResourcePanel = &self.snapshot.panels[i];
            let ghost earlier = panels@;
            let entry = match navigation_position(self.panel_navigation, &panel.id) {
                Some(n) => {
                    assert(navigation[n as int] == self.panel_navigation@[n as int]@);
                    let found: &'a ResourcePanelNavigation = &self.panel_navigation[n];
                    ResourcePanelView {
                        panel,
                        selected_resource: found.selected_resource.as_ref(),
                        selected_index: found.selected_index,
                    }
                },
                None => ResourcePanelView { panel, selected_resource: None, selected_index: 0 },
            };
            panels.push(entry);
            proof {
                assert(self.snapshot@[i as int] == panel@);
                assert(entry@ == panel_view(navigation, panel@));
                assert(entry@ == all[i as int]);
                assert(all.take(i + 1) =~= all.take(i as int).push(all[i as int]));
                assert(views(panels@) =~= views(earlier).push(entry@));
            }
            i = i + 1;
        }
        assert(all.take(i as int) =~= all);
        panels
    }
}

/// A Provider Workspace as one coherent presentation state.
pub enum WorkspacePresentation<'a> {
    Loading { name: &'a str },
    Ready(WorkspaceView<'a>),
    Error { name: &'a str, error: &'a WorkspaceError },
}

impl<'a> View for WorkspacePresentation<'a> {
    type V = PresentationModel;

    open spec fn view(&self) -> PresentationModel {
        match self {
            WorkspacePresentation::Loading { name } => PresentationModel::Loading { name: name@ },
            WorkspacePresentation::Ready(view) => PresentationModel::Ready(view@),
            WorkspacePresentation::Error { name, error } => PresentationModel::Error {
                name: name@,
                error: error@,
            },
        }
    }
}

/// The Detail View on screen, as it is drawn.
pub struct ResourceDetailsView<'a> {
    pub resource_name: &'a str,
    pub title: &'a str,
    pub content: &'a DetailContent,
    pub scroll: u16,
    pub selection: Option<DetailSelection>,
}

impl<'a> View for ResourceDetailsView<'a> {
    type V = ShownDetailsModel;

    open spec fn view(&self) -> ShownDetailsModel {
        ShownDetailsModel {
            resource_name: self.resource_name@,
            title: self.title@,
            content: self.content@,
            scroll: self.scroll,
            selection: self.selection,
        }
    }
}

impl ResourceDetailsState {
    fn shown(&self) -> (view: ResourceDetailsView<'_>)
        ensures
            view@ == shown_details(self@),
    {
        ResourceDetailsView {
            resource_name: self.resource_name.as_str(),
            title: self.title.as_str(),
            content: &self.content,
            scroll: self.scroll,
            selection: self.selection,
        }
    }
}

/// One Resource Panel paired with its private navigation projection.
pub struct ResourcePanelView<'a> {
    pub panel: &'a ResourcePanel,
    pub selected_resource: Option<&'a ResourceId>,
    pub selected_index: usize,
}

impl<'a> View for ResourcePanelView<'a> {
    type V = PanelViewModel;

    open spec fn view(&self) -> PanelViewModel {
        PanelViewModel {
            panel: self.panel@,
            selected_resource: opt_view(self.selected_resource),
            selected_index: self.selected_index as int,
        }
    }
}

impl ProviderWorkspaceState {
    /// The details, while they describe what is on screen.
    fn visible_details(&self) -> (details: Option<ResourceDetailsView<'_>>)
        ensures
            opt_view(details) == self@.visible_details(),
    {
        match &self.details {
            Some(details) => match self.visible_detail_identity() {
                Some(identity) => {
                    if details.target.same(&identity) {
                        Some(details.shown())
                    } else {
                        None
                    }
                },
                None => None,
            },
            None => None,
        }
    }

    /// Projects the private presentation state against the Provider snapshot
    /// that supplied its Resource data.
    pub fn project<'a>(&'a self, snapshot: &'a WorkspaceSnapshot) -> (view: WorkspaceView<'a>)
        ensures
            view@ == self@.projected(snapshot@),
    {
        let target = self.selected_resource_target();
        let selected_resource = match &target {
            Some(target) => snapshot.resource(target),
            None => None,
        };
        let selected_panel = match &target {
            Some(target) => snapshot.panel_for(target),
            None => None,
        };
        let selected_detail_view = match (&self.selected_tab, selected_panel) {
            (DetailTab::View(id), Some(panel)) => panel.detail_view(id),
            _ => None,
        };
        let detail_views: &'a [DetailView] = match selected_panel {
            Some(panel) => panel.detail_views.as_slice(),
            None => &[],
        };
        assert(views(detail_views@) =~= declared_views(opt_view(selected_panel)));
        let shell_offered = match selected_resource {
            Some(resource) => resource.shell.is_some(),
            None => false,
        };
        let shell_chosen = match &self.selected_tab {
            DetailTab::Shell => true,
            _ => false,
        };
        let shell_selected = shell_chosen && shell_offered;
        let view = WorkspaceView {
            id: self.provider.id(),
            name: self.provider.name(),
            target_environment: self.provider.target_environment(),
            version: self.provider.version(),
            focused_resource_panel: self.focused_resource_panel.as_ref(),
            snapshot,
            panel_navigation: &self.panel_navigation,
            selected_resource,
            detail_views,
            selected_detail_view,
            overview_selected: selected_detail_view.is_none() && !shell_selected,
            shell_offered,
            shell_selected,
            details: self.visible_details(),
        };
        assert(view@.panels =~= self@.projected(snapshot@).panels);
        view
    }

    /// Projects the Provider Workspace into one coherent presentation state.
    pub fn presentation(&self) -> (presentation: WorkspacePresentation<'_>)
        ensures
            presentation@ == self@.presented(),
    {
        match &self.load_state {
            WorkspaceLoadState::Loading => WorkspacePresentation::Loading {
                name: self.provider.name(),
            },
            WorkspaceLoadState::Ready(snapshot) => WorkspacePresentation::Ready(
                self.project(snapshot),
            ),
            WorkspaceLoadState::Error(error) => WorkspacePresentation::Error {
                name: self.provider.name(),
                error,
            },
        }
    }
}

} // verus!
