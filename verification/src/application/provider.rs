//! What a Provider Workspace reports, and what it can be asked to do.

use vstd::prelude::*;
use vstd::string::*;

use super::command::ResourceCommand;
use super::shell::{ProcessModel, ResourceShellProcess};
use crate::domain::{
    DetailViewId, ProviderId, ResourceId, ResourcePanelId, ResourceState, ResourceTarget,
    TargetModel,
};
use crate::text::{
    blank, clone_texts, first_position, is_blank, lemma_first_position_found,
    lemma_first_position_none, lines, lines_of, opt_view, trim_end_matches, views,
    without_trailing,
};

verus! {

/// The real lifecycle difference between Provider command sets.
#[derive(Clone, Copy, Debug, PartialEq, Eq, Structural)]
pub enum LifecycleCommandPolicy {
    RestartAndResume,
    StartStop,
}

/// The Resource Commands that a state leaves possible.
///
/// Deleting always is; a Provider forces it where the Resource is not stopped.
pub open spec fn possible_commands(
    state: ResourceState,
    policy: LifecycleCommandPolicy,
) -> Seq<ResourceCommand> {
    match state {
        ResourceState::Running => match policy {
            LifecycleCommandPolicy::RestartAndResume => seq![
                ResourceCommand::Stop,
                ResourceCommand::Restart,
                ResourceCommand::Delete,
            ],
            LifecycleCommandPolicy::StartStop => seq![
                ResourceCommand::Stop,
                ResourceCommand::Delete,
            ],
        },
        ResourceState::Stopped => seq![ResourceCommand::Start, ResourceCommand::Delete],
        ResourceState::Paused => match policy {
            LifecycleCommandPolicy::RestartAndResume => seq![
                ResourceCommand::Resume,
                ResourceCommand::Delete,
            ],
            LifecycleCommandPolicy::StartStop => seq![ResourceCommand::Delete],
        },
        ResourceState::Transitioning => seq![ResourceCommand::Delete],
        ResourceState::Broken => seq![ResourceCommand::Delete],
        ResourceState::Unknown => seq![ResourceCommand::Delete],
    }
}

/// Derives Resource Commands from shared lifecycle policy.
pub fn lifecycle_commands(
    state: ResourceState,
    policy: LifecycleCommandPolicy,
) -> (commands: &'static [ResourceCommand])
    ensures
        commands@ == possible_commands(state, policy),
{
    match state {
        ResourceState::Running => match policy {
            LifecycleCommandPolicy::RestartAndResume => &[
                ResourceCommand::Stop,
                ResourceCommand::Restart,
                ResourceCommand::Delete,
            ],
            LifecycleCommandPolicy::StartStop => &[ResourceCommand::Stop, ResourceCommand::Delete],
        },
        ResourceState::Stopped => &[ResourceCommand::Start, ResourceCommand::Delete],
        ResourceState::Paused => match policy {
            LifecycleCommandPolicy::RestartAndResume => &[
                ResourceCommand::Resume,
                ResourceCommand::Delete,
            ],
            LifecycleCommandPolicy::StartStop => &[ResourceCommand::Delete],
        },
        ResourceState::Transitioning => &[ResourceCommand::Delete],
        ResourceState::Broken => &[ResourceCommand::Delete],
        ResourceState::Unknown => &[ResourceCommand::Delete],
    }
}

/// Identifies one asynchronous request sent to a Provider Workspace.
///
/// The application allocates these IDs and accepts a completion only while its
/// ID remains pending for its Provider. That prevents stale provider results
/// from overwriting newer application state.
#[derive(Clone, Copy, Debug, PartialEq, Eq, Hash, Structural)]
pub struct ProviderRequestId(pub u64);

impl ProviderRequestId {
    /// Reconstructs an application-allocated request identity at a state seam.
    /// The application remains responsible for choosing unique values.
    pub fn new(value: u64) -> (id: Self)
        ensures
            id == ProviderRequestId(value),
    {
        ProviderRequestId(value)
    }
}

/// A specific request the application asks a Provider Workspace to perform.
///
/// Infrastructure executes requests outside the single-owner application state.
#[derive(Debug, PartialEq, Eq)]
pub enum ProviderRequest {
    RefreshWorkspace { request_id: ProviderRequestId, provider_id: ProviderId },
    ExecuteResourceCommand {
        request_id: ProviderRequestId,
        provider_id: ProviderId,
        target: ResourceTarget,
        command: ResourceCommand,
        /// What the last refresh reported for this Resource, carried here so
        /// the Provider Workspace never re-queries it while dispatching.
        state: Option<ResourceState>,
    },
    /// Loads one detail view for one Resource.
    ///
    /// The application asks for exactly the view on screen, so a Provider never
    /// runs work for a detail the user is not looking at.
    LoadResourceDetails {
        request_id: ProviderRequestId,
        provider_id: ProviderId,
        target: ResourceTarget,
        view_id: DetailViewId,
    },
}

/// What a [`ProviderRequest`] asks for.
#[verifier::ext_equal]
pub enum RequestModel {
    RefreshWorkspace { request_id: ProviderRequestId, provider_id: Seq<char> },
    ExecuteResourceCommand {
        request_id: ProviderRequestId,
        provider_id: Seq<char>,
        target: TargetModel,
        command: ResourceCommand,
        state: Option<ResourceState>,
    },
    LoadResourceDetails {
        request_id: ProviderRequestId,
        provider_id: Seq<char>,
        target: TargetModel,
        view_id: Seq<char>,
    },
}

impl View for ProviderRequest {
    type V = RequestModel;

    open spec fn view(&self) -> RequestModel {
        match self {
            ProviderRequest::RefreshWorkspace {
                request_id,
                provider_id,
            } => RequestModel::RefreshWorkspace {
                request_id: *request_id,
                provider_id: provider_id@,
            },
            ProviderRequest::ExecuteResourceCommand {
                request_id,
                provider_id,
                target,
                command,
                state,
            } => RequestModel::ExecuteResourceCommand {
                request_id: *request_id,
                provider_id: provider_id@,
                target: target@,
                command: *command,
                state: *state,
            },
            ProviderRequest::LoadResourceDetails {
                request_id,
                provider_id,
                target,
                view_id,
            } => RequestModel::LoadResourceDetails {
                request_id: *request_id,
                provider_id: provider_id@,
                target: target@,
                view_id: view_id@,
            },
        }
    }
}

impl Clone for ProviderRequest {
    fn clone(&self) -> (copy: Self)
        ensures
            copy == *self,
    {
        match self {
            ProviderRequest::RefreshWorkspace {
                request_id,
                provider_id,
            } => ProviderRequest::RefreshWorkspace {
                request_id: *request_id,
                provider_id: provider_id.clone(),
            },
            ProviderRequest::ExecuteResourceCommand {
                request_id,
                provider_id,
                target,
                command,
                state,
            } => ProviderRequest::ExecuteResourceCommand {
                request_id: *request_id,
                provider_id: provider_id.clone(),
                target: target.clone(),
                command: *command,
                state: *state,
            },
            ProviderRequest::LoadResourceDetails {
                request_id,
                provider_id,
                target,
                view_id,
            } => ProviderRequest::LoadResourceDetails {
                request_id: *request_id,
                provider_id: provider_id.clone(),
                target: target.clone(),
                view_id: view_id.clone(),
            },
        }
    }
}

/// One selectable native resource in a Provider Workspace.
#[derive(Debug, PartialEq, Eq)]
pub struct Resource {
    pub id: ResourceId,
    pub name: String,
    /// A second, Provider-defined text shown behind the name in the list.
    pub secondary_text: Option<String>,
    /// Provider-defined status text shown next to the resource in the list.
    pub status: Option<String>,
    /// The provider-neutral reading of `status` that application policy uses.
    pub state: Option<ResourceState>,
    /// Provider-defined label/value fields of the resource's Overview.
    pub fields: Vec<(&'static str, String)>,
    /// Detail content already carried by this application-owned snapshot.
    pub snapshot_details: Vec<(DetailViewId, ResourceDetails)>,
    /// Lifecycle Commands currently available for this provider Resource.
    pub available_commands: &'static [ResourceCommand],
    /// The shell this Provider offers inside the Resource now.
    pub shell: Option<ResourceShellProcess>,
}

/// What a [`Resource`] holds.
#[verifier::ext_equal]
pub struct ResourceModel {
    pub id: Seq<char>,
    pub name: Seq<char>,
    pub secondary_text: Option<Seq<char>>,
    pub status: Option<Seq<char>>,
    pub state: Option<ResourceState>,
    pub fields: Seq<(Seq<char>, Seq<char>)>,
    pub snapshot_details: Seq<(Seq<char>, Seq<Seq<char>>)>,
    pub available_commands: Seq<ResourceCommand>,
    pub shell: Option<ProcessModel>,
}

pub open spec fn fields_view(fields: Seq<(&'static str, String)>) -> Seq<(Seq<char>, Seq<char>)> {
    fields.map_values(|field: (&'static str, String)| (field.0@, field.1@))
}

pub open spec fn details_view(
    details: Seq<(DetailViewId, ResourceDetails)>,
) -> Seq<(Seq<char>, Seq<Seq<char>>)> {
    details.map_values(|detail: (DetailViewId, ResourceDetails)| (detail.0@, detail.1@))
}

impl View for Resource {
    type V = ResourceModel;

    open spec fn view(&self) -> ResourceModel {
        ResourceModel {
            id: self.id@,
            name: self.name@,
            secondary_text: opt_view(self.secondary_text),
            status: opt_view(self.status),
            state: self.state,
            fields: fields_view(self.fields@),
            snapshot_details: details_view(self.snapshot_details@),
            available_commands: self.available_commands@,
            shell: opt_view(self.shell),
        }
    }
}

/// A copy of an optional text.
pub fn clone_optional_text(text: &Option<String>) -> (copy: Option<String>)
    ensures
        copy == *text,
{
    match text {
        Some(text) => Some(text.clone()),
        None => None,
    }
}

fn clone_fields(fields: &Vec<(&'static str, String)>) -> (copy: Vec<(&'static str, String)>)
    ensures
        fields_view(copy@) == fields_view(fields@),
{
    let mut copy: Vec<(&'static str, String)> = Vec::new();
    let mut i: usize = 0;
    while i < fields.len()
        invariant
            i <= fields.len(),
            copy@.len() == i,
            forall|j: int| 0 <= j < i ==> #[trigger] copy@[j] == fields@[j],
        decreases fields.len() - i,
    {
        copy.push((fields[i].0, fields[i].1.clone()));
        i = i + 1;
    }
    assert(copy@ =~= fields@);
    copy
}

fn clone_details(details: &Vec<(DetailViewId, ResourceDetails)>) -> (copy: Vec<
    (DetailViewId, ResourceDetails),
>)
    ensures
        details_view(copy@) == details_view(details@),
{
    let mut copy: Vec<(DetailViewId, ResourceDetails)> = Vec::new();
    let mut i: usize = 0;
    while i < details.len()
        invariant
            i <= details.len(),
            copy@.len() == i,
            forall|j: int|
                0 <= j < i ==> (#[trigger] copy@[j]).0@ == details@[j].0@ && copy@[j].1@
                    == details@[j].1@,
        decreases details.len() - i,
    {
        copy.push((details[i].0.clone(), details[i].1.clone()));
        i = i + 1;
    }
    assert(details_view(copy@) =~= details_view(details@));
    copy
}

impl Clone for Resource {
    fn clone(&self) -> (copy: Self)
        ensures
            copy@ == self@,
    {
        Resource {
            id: self.id.clone(),
            name: self.name.clone(),
            secondary_text: clone_optional_text(&self.secondary_text),
            status: clone_optional_text(&self.status),
            state: self.state,
            fields: clone_fields(&self.fields),
            snapshot_details: clone_details(&self.snapshot_details),
            available_commands: self.available_commands,
            shell: match &self.shell {
                Some(process) => Some(process.clone()),
                None => None,
            },
        }
    }
}

impl Resource {
    /// Whether the Provider offers a Command for the Resource now.
    pub fn offers(&self, command: ResourceCommand) -> (answer: bool)
        ensures
            answer == self@.available_commands.contains(command),
    {
        let mut i: usize = 0;
        while i < self.available_commands.len()
            invariant
                i <= self.available_commands@.len(),
                forall|j: int| 0 <= j < i ==> self.available_commands@[j] != command,
            decreases self.available_commands@.len() - i,
        {
            if self.available_commands[i] == command {
                return true;
            }
            i = i + 1;
        }
        false
    }
}

/// Where the content of a Detail View comes from.
#[derive(Clone, Copy, Debug, PartialEq, Eq, Structural)]
pub enum DetailViewSource {
    Provider,
    Snapshot,
}

/// One provider-native way of inspecting a selected Resource.
#[derive(Debug, PartialEq, Eq)]
pub struct DetailView {
    pub id: DetailViewId,
    pub title: String,
    pub source: DetailViewSource,
}

/// What a [`DetailView`] declares.
#[verifier::ext_equal]
pub struct DetailViewModel {
    pub id: Seq<char>,
    pub title: Seq<char>,
    pub source: DetailViewSource,
}

impl View for DetailView {
    type V = DetailViewModel;

    open spec fn view(&self) -> DetailViewModel {
        DetailViewModel { id: self.id@, title: self.title@, source: self.source }
    }
}

impl Clone for DetailView {
    fn clone(&self) -> (copy: Self)
        ensures
            copy == *self,
    {
        DetailView { id: self.id.clone(), title: self.title.clone(), source: self.source }
    }
}

impl DetailView {
    pub fn new(id: &str, title: &str) -> (view: Self)
        ensures
            view@ == (DetailViewModel {
                id: id@,
                title: title@,
                source: DetailViewSource::Provider,
            }),
    {
        DetailView {
            id: DetailViewId::new(id),
            title: title.to_owned(),
            source: DetailViewSource::Provider,
        }
    }

    /// Declares Detail content that the Resource snapshot already carries.
    pub fn from_snapshot(id: &str, title: &str) -> (view: Self)
        ensures
            view@ == (DetailViewModel {
                id: id@,
                title: title@,
                source: DetailViewSource::Snapshot,
            }),
    {
        DetailView {
            id: DetailViewId::new(id),
            title: title.to_owned(),
            source: DetailViewSource::Snapshot,
        }
    }

    pub fn loads_from_snapshot(&self) -> (answer: bool)
        ensures
            answer == (self@.source == DetailViewSource::Snapshot),
    {
        self.source == DetailViewSource::Snapshot
    }
}

/// A provider-defined group of resources, such as Docker Containers.
#[derive(Debug, PartialEq, Eq)]
pub struct ResourcePanel {
    pub id: ResourcePanelId,
    pub title: String,
    /// Detail views offered for every Resource in this panel, in display order.
    pub detail_views: Vec<DetailView>,
    pub resources: Vec<Resource>,
}

/// What a [`ResourcePanel`] holds.
#[verifier::ext_equal]
pub struct PanelModel {
    pub id: Seq<char>,
    pub title: Seq<char>,
    pub detail_views: Seq<DetailViewModel>,
    pub resources: Seq<ResourceModel>,
}

impl View for ResourcePanel {
    type V = PanelModel;

    open spec fn view(&self) -> PanelModel {
        PanelModel {
            id: self.id@,
            title: self.title@,
            detail_views: views(self.detail_views@),
            resources: views(self.resources@),
        }
    }
}

/// Presentation-neutral data returned by a successful provider refresh.
#[derive(Debug, PartialEq, Eq)]
pub struct WorkspaceSnapshot {
    pub panels: Vec<ResourcePanel>,
}

impl View for WorkspaceSnapshot {
    type V = Seq<PanelModel>;

    open spec fn view(&self) -> Seq<PanelModel> {
        views(self.panels@)
    }
}

pub open spec fn panel_ids(panels: Seq<PanelModel>) -> Seq<Seq<char>> {
    panels.map_values(|panel: PanelModel| panel.id)
}

pub open spec fn resource_ids(resources: Seq<ResourceModel>) -> Seq<Seq<char>> {
    resources.map_values(|resource: ResourceModel| resource.id)
}

pub open spec fn view_ids(detail_views: Seq<DetailViewModel>) -> Seq<Seq<char>> {
    detail_views.map_values(|view: DetailViewModel| view.id)
}

pub open spec fn carried_ids(details: Seq<(Seq<char>, Seq<Seq<char>>)>) -> Seq<Seq<char>> {
    details.map_values(|detail: (Seq<char>, Seq<Seq<char>>)| detail.0)
}

/// The first panel with an identity.
pub open spec fn find_panel(panels: Seq<PanelModel>, id: Seq<char>) -> Option<PanelModel> {
    match first_position(panel_ids(panels), id) {
        Some(i) => Some(panels[i]),
        None => None,
    }
}

/// The first Resource of a panel with an identity.
pub open spec fn find_in_panel(panel: PanelModel, id: Seq<char>) -> Option<ResourceModel> {
    match first_position(resource_ids(panel.resources), id) {
        Some(i) => Some(panel.resources[i]),
        None => None,
    }
}

/// The Resource that a target names.
pub open spec fn find_resource(panels: Seq<PanelModel>, target: TargetModel) -> Option<
    ResourceModel,
> {
    match find_panel(panels, target.panel_id) {
        Some(panel) => find_in_panel(panel, target.resource_id),
        None => None,
    }
}

/// The Detail View that a panel declares under an identity.
pub open spec fn find_view(panel: PanelModel, id: Seq<char>) -> Option<DetailViewModel> {
    match first_position(view_ids(panel.detail_views), id) {
        Some(i) => Some(panel.detail_views[i]),
        None => None,
    }
}

/// The content that a Resource carries for a Detail View, empty where it
/// carries none.
pub open spec fn carried_detail(resource: ResourceModel, id: Seq<char>) -> Seq<Seq<char>> {
    match first_position(carried_ids(resource.snapshot_details), id) {
        Some(i) => resource.snapshot_details[i].1,
        None => Seq::empty(),
    }
}

/// Detail content that needs no Provider work.
///
/// `None` means that the view is Provider-backed or was never declared. A
/// snapshot-backed view whose Resource is absent is present but empty.
pub open spec fn snapshot_detail_of(
    panels: Seq<PanelModel>,
    target: TargetModel,
    id: Seq<char>,
) -> Option<Seq<Seq<char>>> {
    match find_panel(panels, target.panel_id) {
        Some(panel) => match find_view(panel, id) {
            Some(view) => if view.source == DetailViewSource::Snapshot {
                Some(
                    match find_resource(panels, target) {
                        Some(resource) => carried_detail(resource, id),
                        None => Seq::empty(),
                    },
                )
            } else {
                None
            },
            None => None,
        },
        None => None,
    }
}

/// Every Resource across panels, in provider-defined order.
pub open spec fn all_resources(panels: Seq<PanelModel>) -> Seq<ResourceModel>
    decreases panels.len(),
{
    if panels.len() == 0 {
        Seq::empty()
    } else {
        all_resources(panels.drop_last()) + panels.last().resources
    }
}

/// The targets of a panel's Resources.
pub open spec fn panel_targets(panel: PanelModel) -> Seq<TargetModel> {
    panel.resources.map_values(
        |resource: ResourceModel|
            TargetModel { panel_id: panel.id, resource_id: resource.id },
    )
}

/// The target of every Resource across panels, in provider-defined order.
pub open spec fn all_targets(panels: Seq<PanelModel>) -> Seq<TargetModel>
    decreases panels.len(),
{
    if panels.len() == 0 {
        Seq::empty()
    } else {
        all_targets(panels.drop_last()) + panel_targets(panels.last())
    }
}

/// The targets of a list of Resources paired with them.
pub open spec fn paired_targets(pairs: Seq<(ResourceTarget, &Resource)>) -> Seq<TargetModel> {
    pairs.map_values(|pair: (ResourceTarget, &Resource)| pair.0@)
}

/// The Resources of a list that pairs them with their targets.
pub open spec fn paired_resources(pairs: Seq<(ResourceTarget, &Resource)>) -> Seq<ResourceModel> {
    pairs.map_values(|pair: (ResourceTarget, &Resource)| pair.1@)
}

impl ResourcePanel {
    pub fn resource_position(&self, id: &ResourceId) -> (found: Option<usize>)
        ensures
            found matches Some(i) ==> first_position(resource_ids(self@.resources), id@) == Some(
                i as int,
            ) && i < self.resources.len(),
            found is None ==> first_position(resource_ids(self@.resources), id@) is None,
    {
        let ghost ids = resource_ids(self@.resources);
        let mut i: usize = 0;
        while i < self.resources.len()
            invariant
                i <= self.resources.len(),
                ids == resource_ids(self@.resources),
                forall|j: int| 0 <= j < i ==> ids[j] != id@,
            decreases self.resources.len() - i,
        {
            assert(ids[i as int] == self.resources@[i as int].id@);
            if self.resources[i].id.same(id) {
                proof {
                    lemma_first_position_found(ids, id@, i as int);
                }
                return Some(i);
            }
            i = i + 1;
        }
        proof {
            lemma_first_position_none(ids, id@);
        }
        None
    }

    pub fn view_position(&self, id: &DetailViewId) -> (found: Option<usize>)
        ensures
            found matches Some(i) ==> first_position(view_ids(self@.detail_views), id@) == Some(
                i as int,
            ) && i < self.detail_views.len(),
            found is None ==> first_position(view_ids(self@.detail_views), id@) is None,
    {
        let ghost own = views(self.detail_views@);
        let ghost ids = view_ids(own);
        assert(self@.detail_views == own);
        let mut i: usize = 0;
        while i < self.detail_views.len()
            invariant
                i <= self.detail_views.len(),
                own == views(self.detail_views@),
                own == self@.detail_views,
                ids == view_ids(own),
                forall|j: int| 0 <= j < i ==> ids[j] != id@,
            decreases self.detail_views.len() - i,
        {
            assert(own[i as int] == self.detail_views@[i as int]@);
            assert(ids[i as int] == self.detail_views@[i as int].id@);
            if self.detail_views[i].id.same(id) {
                proof {
                    lemma_first_position_found(ids, id@, i as int);
                }
                return Some(i);
            }
            i = i + 1;
        }
        proof {
            lemma_first_position_none(ids, id@);
        }
        None
    }

    pub fn resource(&self, id: &ResourceId) -> (resource: Option<&Resource>)
        ensures
            opt_view(resource) == find_in_panel(self@, id@),
    {
        match self.resource_position(id) {
            Some(i) => Some(&self.resources[i]),
            None => None,
        }
    }

    pub fn detail_view(&self, id: &DetailViewId) -> (view: Option<&DetailView>)
        ensures
            opt_view(view) == find_view(self@, id@),
    {
        match self.view_position(id) {
            Some(i) => Some(&self.detail_views[i]),
            None => None,
        }
    }
}

impl WorkspaceSnapshot {
    /// Every Resource across all panels in provider-defined order.
    pub fn resources(&self) -> (resources: Vec<&Resource>)
        ensures
            views(resources@) == all_resources(self@),
    {
        let mut resources: Vec<&Resource> = Vec::new();
        let ghost panels = self@;
        let mut p: usize = 0;
        assert(views(resources@) =~= Seq::<ResourceModel>::empty());
        while p < self.panels.len()
            invariant
                p <= self.panels.len(),
                panels == self@,
                views(resources@) == all_resources(panels.take(p as int)),
            decreases self.panels.len() - p,
        {
            let panel = &self.panels[p];
            let ghost before = views(resources@);
            let ghost own = panel@.resources;
            proof {
                assert(panels.take(p + 1).drop_last() =~= panels.take(p as int));
                assert(panels.take(p + 1).last() == panel@);
                assert(before =~= before + own.take(0));
            }
            let mut r: usize = 0;
            while r < panel.resources.len()
                invariant
                    r <= panel.resources.len(),
                    own == panel@.resources,
                    views(resources@) == before + own.take(r as int),
                decreases panel.resources.len() - r,
            {
                let ghost earlier = resources@;
                resources.push(&panel.resources[r]);
                proof {
                    assert(views(resources@) =~= views(earlier).push(own[r as int]));
                    assert(own.take(r + 1) =~= own.take(r as int).push(own[r as int]));
                    assert(views(resources@) =~= before + own.take(r + 1));
                }
                r = r + 1;
            }
            assert(own.take(r as int) =~= own);
            p = p + 1;
        }
        assert(panels.take(p as int) =~= panels);
        resources
    }

    /// Every Resource with its panel-qualified target.
    pub fn targets(&self) -> (pairs: Vec<(ResourceTarget, &Resource)>)
        ensures
            paired_targets(pairs@) == all_targets(self@),
            paired_resources(pairs@) == all_resources(self@),
    {
        let mut pairs: Vec<(ResourceTarget, &Resource)> = Vec::new();
        let ghost panels = self@;
        let mut p: usize = 0;
        proof {
            assert(paired_targets(pairs@) =~= Seq::<TargetModel>::empty());
            assert(paired_resources(pairs@) =~= Seq::<ResourceModel>::empty());
        }
        while p < self.panels.len()
            invariant
                p <= self.panels.len(),
                panels == self@,
                paired_targets(pairs@) == all_targets(panels.take(p as int)),
                paired_resources(pairs@) == all_resources(panels.take(p as int)),
            decreases self.panels.len() - p,
        {
            let panel = &self.panels[p];
            let ghost targets_before = paired_targets(pairs@);
            let ghost resources_before = paired_resources(pairs@);
            let ghost own = panel@.resources;
            let ghost named = panel_targets(panel@);
            proof {
                assert(panels.take(p + 1).drop_last() =~= panels.take(p as int));
                assert(panels.take(p + 1).last() == panel@);
                assert(targets_before =~= targets_before + named.take(0));
                assert(resources_before =~= resources_before + own.take(0));
            }
            let mut r: usize = 0;
            while r < panel.resources.len()
                invariant
                    r <= panel.resources.len(),
                    own == panel@.resources,
                    named == panel_targets(panel@),
                    paired_targets(pairs@) == targets_before + named.take(r as int),
                    paired_resources(pairs@) == resources_before + own.take(r as int),
                decreases panel.resources.len() - r,
            {
                let ghost earlier = pairs@;
                let resource = &panel.resources[r];
                pairs.push(
                    (ResourceTarget::new(panel.id.clone(), resource.id.clone()), resource),
                );
                proof {
                    assert(paired_targets(pairs@) =~= paired_targets(earlier).push(
                        named[r as int],
                    ));
                    assert(paired_resources(pairs@) =~= paired_resources(earlier).push(
                        own[r as int],
                    ));
                    assert(named.take(r + 1) =~= named.take(r as int).push(named[r as int]));
                    assert(own.take(r + 1) =~= own.take(r as int).push(own[r as int]));
                    assert(paired_targets(pairs@) =~= targets_before + named.take(r + 1));
                    assert(paired_resources(pairs@) =~= resources_before + own.take(r + 1));
                }
                r = r + 1;
            }
            proof {
                assert(own.take(r as int) =~= own);
                assert(named.take(r as int) =~= named);
            }
            p = p + 1;
        }
        assert(panels.take(p as int) =~= panels);
        pairs
    }

    pub fn panel_position(&self, panel_id: &ResourcePanelId) -> (found: Option<usize>)
        ensures
            found matches Some(i) ==> first_position(panel_ids(self@), panel_id@) == Some(i as int)
                && i < self.panels.len(),
            found is None ==> first_position(panel_ids(self@), panel_id@) is None,
    {
        let ghost ids = panel_ids(self@);
        let mut i: usize = 0;
        while i < self.panels.len()
            invariant
                i <= self.panels.len(),
                ids == panel_ids(self@),
                forall|j: int| 0 <= j < i ==> ids[j] != panel_id@,
            decreases self.panels.len() - i,
        {
            assert(ids[i as int] == self.panels@[i as int].id@);
            if self.panels[i].id.same(panel_id) {
                proof {
                    lemma_first_position_found(ids, panel_id@, i as int);
                }
                return Some(i);
            }
            i = i + 1;
        }
        proof {
            lemma_first_position_none(ids, panel_id@);
        }
        None
    }

    pub fn panel(&self, panel_id: &ResourcePanelId) -> (panel: Option<&ResourcePanel>)
        ensures
            opt_view(panel) == find_panel(self@, panel_id@),
    {
        match self.panel_position(panel_id) {
            Some(i) => Some(&self.panels[i]),
            None => None,
        }
    }

    pub fn panel_for(&self, target: &ResourceTarget) -> (panel: Option<&ResourcePanel>)
        ensures
            opt_view(panel) == find_panel(self@, target@.panel_id),
    {
        self.panel(target.panel_id())
    }

    pub fn resource(&self, target: &ResourceTarget) -> (resource: Option<&Resource>)
        ensures
            opt_view(resource) == find_resource(self@, target@),
    {
        match self.panel_for(target) {
            Some(panel) => panel.resource(target.resource_id()),
            None => None,
        }
    }

    /// Resolves application-owned Detail content without Provider work.
    ///
    /// `None` means the declared view is Provider-backed. A snapshot-backed
    /// view whose Resource is absent is present but empty.
    pub fn snapshot_detail(&self, target: &ResourceTarget, view_id: &DetailViewId) -> (detail:
        Option<ResourceDetails>)
        ensures
            opt_view(detail) == snapshot_detail_of(self@, target@, view_id@),
    {
        let panel = match self.panel_for(target) {
            Some(panel) => panel,
            None => return None,
        };
        let view = match panel.detail_view(view_id) {
            Some(view) => view,
            None => return None,
        };
        if !view.loads_from_snapshot() {
            return None;
        }
        match self.resource(target) {
            Some(resource) => Some(resource.carried_detail(view_id)),
            None => Some(ResourceDetails::default()),
        }
    }
}

impl Resource {
    /// The Detail content the Resource carries for a view, empty where it
    /// carries none.
    fn carried_detail(&self, view_id: &DetailViewId) -> (details: ResourceDetails)
        ensures
            details@ == carried_detail(self@, view_id@),
    {
        let ghost ids = carried_ids(self@.snapshot_details);
        let mut i: usize = 0;
        while i < self.snapshot_details.len()
            invariant
                i <= self.snapshot_details.len(),
                ids == carried_ids(self@.snapshot_details),
                forall|j: int| 0 <= j < i ==> ids[j] != view_id@,
            decreases self.snapshot_details.len() - i,
        {
            assert(ids[i as int] == self.snapshot_details@[i as int].0@);
            if self.snapshot_details[i].0.same(view_id) {
                proof {
                    lemma_first_position_found(ids, view_id@, i as int);
                }
                return self.snapshot_details[i].1.clone();
            }
            i = i + 1;
        }
        proof {
            lemma_first_position_none(ids, view_id@);
        }
        ResourceDetails::default()
    }
}

/// Presentation-neutral output of one detail view for one Resource.
#[derive(Debug, PartialEq, Eq)]
pub struct ResourceDetails {
    pub lines: Vec<String>,
}

impl View for ResourceDetails {
    type V = Seq<Seq<char>>;

    open spec fn view(&self) -> Seq<Seq<char>> {
        views(self.lines@)
    }
}

impl Clone for ResourceDetails {
    fn clone(&self) -> (copy: Self)
        ensures
            copy@ == self@,
    {
        ResourceDetails { lines: clone_texts(&self.lines) }
    }
}

impl Default for ResourceDetails {
    fn default() -> (details: Self)
        ensures
            details@ == Seq::<Seq<char>>::empty(),
    {
        let details = ResourceDetails { lines: Vec::new() };
        assert(details@ =~= Seq::<Seq<char>>::empty());
        details
    }
}

/// The lines of provider output, without the blank its last line break leaves.
pub open spec fn output_lines(output: Seq<char>) -> Seq<Seq<char>> {
    lines_of(without_trailing(output, '\n'))
}

impl ResourceDetails {
    pub fn from_lines(lines: Vec<String>) -> (details: Self)
        ensures
            details@ == views(lines@),
    {
        ResourceDetails { lines }
    }

    /// Splits provider output into displayable lines, dropping a trailing blank.
    pub fn from_output(output: &str) -> (details: Self)
        ensures
            details@ == output_lines(output@),
    {
        let inner = trim_end_matches(output, '\n');
        ResourceDetails::from_lines(lines(inner.as_str()))
    }

    /// Whether no line says anything.
    pub fn is_empty(&self) -> (empty: bool)
        ensures
            empty == (forall|i: int| 0 <= i < self@.len() ==> is_blank(#[trigger] self@[i])),
    {
        let mut i: usize = 0;
        while i < self.lines.len()
            invariant
                i <= self.lines.len(),
                forall|j: int| 0 <= j < i ==> is_blank(#[trigger] self@[j]),
            decreases self.lines.len() - i,
        {
            assert(self@[i as int] == self.lines@[i as int]@);
            if !blank(self.lines[i].as_str()) {
                return false;
            }
            i = i + 1;
        }
        true
    }
}

/// A user-facing failure from discovering or refreshing a Provider Workspace.
#[derive(Debug, PartialEq, Eq)]
pub struct WorkspaceError {
    pub message: String,
}

impl View for WorkspaceError {
    type V = Seq<char>;

    open spec fn view(&self) -> Seq<char> {
        self.message@
    }
}

impl Clone for WorkspaceError {
    fn clone(&self) -> (copy: Self)
        ensures
            copy == *self,
    {
        WorkspaceError { message: self.message.clone() }
    }
}

impl WorkspaceError {
    pub fn new(message: &str) -> (error: Self)
        ensures
            error@ == message@,
    {
        WorkspaceError { message: message.to_owned() }
    }

    /// A failure together with what the user can do about it.
    pub fn with_help(message: &str, help: &str) -> (error: Self)
        ensures
            error@ == message@ + ". "@ + help@,
    {
        let mut text = message.to_owned();
        text.append(". ");
        text.append(help);
        WorkspaceError { message: text }
    }
}

/// Deleting is possible in every state, and starting only from a settled one.
pub proof fn law_lifecycle_commands(state: ResourceState, policy: LifecycleCommandPolicy)
    ensures
        possible_commands(state, policy).contains(ResourceCommand::Delete),
        possible_commands(state, policy).contains(ResourceCommand::Start) <==> state
            == ResourceState::Stopped,
        possible_commands(state, policy).contains(ResourceCommand::Stop) <==> state
            == ResourceState::Running,
{
    let commands = possible_commands(state, policy);
    assert(commands.last() == ResourceCommand::Delete);
    if state == ResourceState::Stopped || state == ResourceState::Running {
        assert(commands[0] == ResourceCommand::Start || commands[0] == ResourceCommand::Stop);
    }
}

} // verus!
