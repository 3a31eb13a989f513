//! Which Provider Workspace answers a request, and what its answer tells the
//! application.

use vstd::prelude::*;
use vstd::string::*;

use super::provider::{DiscoveryModel, ProviderDiscovery};
use crate::application::app::model::EventModel;
use crate::application::app::{command_result_view, snapshot_result_view, AppEvent};
use crate::application::provider::{
    ProviderRequest, RequestModel, ResourceDetails, WorkspaceError, WorkspaceSnapshot,
};
use crate::application::workspace::result_view;
use crate::domain::ProviderId;
use crate::text::views;

verus! {

/// How often the Active Workspace is refreshed, in milliseconds.
pub const REFRESH_INTERVAL_MILLIS: u64 = 2_000;

/// The compiled-in Provider Workspaces.
#[derive(Clone, Copy, Debug, PartialEq, Eq, Structural)]
pub enum BuiltinProvider {
    Docker,
    Incus,
    DockerSandbox,
}

/// The Provider Workspaces in their stable provider-selector order.
pub open spec fn registration_order() -> Seq<BuiltinProvider> {
    seq![BuiltinProvider::Docker, BuiltinProvider::Incus, BuiltinProvider::DockerSandbox]
}

pub open spec fn builtin_id(provider: BuiltinProvider) -> Seq<char> {
    match provider {
        BuiltinProvider::Docker => "docker"@,
        BuiltinProvider::Incus => "incus"@,
        BuiltinProvider::DockerSandbox => "docker-sandbox"@,
    }
}

/// The Provider that a request is for.
pub open spec fn addressee(request: RequestModel) -> Seq<char> {
    match request {
        RequestModel::RefreshWorkspace { provider_id, .. } => provider_id,
        RequestModel::ExecuteResourceCommand { provider_id, .. } => provider_id,
        RequestModel::LoadResourceDetails { provider_id, .. } => provider_id,
    }
}

/// The compiled-in Provider that answers an identity.
pub open spec fn answering(id: Seq<char>) -> Option<BuiltinProvider> {
    if id == "docker"@ {
        Some(BuiltinProvider::Docker)
    } else if id == "incus"@ {
        Some(BuiltinProvider::Incus)
    } else if id == "docker-sandbox"@ {
        Some(BuiltinProvider::DockerSandbox)
    } else {
        None
    }
}

/// How a request ended.
pub enum ProviderOutcome {
    Refreshed(Result<WorkspaceSnapshot, WorkspaceError>),
    Commanded(Result<(), WorkspaceError>),
    Loaded(Result<ResourceDetails, WorkspaceError>),
}

/// The event that tells the application how its request ended. An outcome of
/// another kind of request tells nothing.
pub open spec fn completion_of(request: RequestModel, outcome: ProviderOutcome) -> Option<
    EventModel,
> {
    match (request, outcome) {
        (
            RequestModel::RefreshWorkspace { request_id, provider_id },
            ProviderOutcome::Refreshed(result),
        ) => Some(
            EventModel::RefreshCompleted {
                request_id,
                provider_id,
                result: snapshot_result_view(result),
            },
        ),
        (
            RequestModel::ExecuteResourceCommand { request_id, provider_id, target, command, .. },
            ProviderOutcome::Commanded(result),
        ) => Some(
            EventModel::ResourceCommandCompleted {
                request_id,
                provider_id,
                target,
                command,
                result: command_result_view(result),
            },
        ),
        (
            RequestModel::LoadResourceDetails { request_id, provider_id, target, view_id },
            ProviderOutcome::Loaded(result),
        ) => Some(
            EventModel::ResourceDetailsCompleted {
                request_id,
                provider_id,
                target,
                view_id,
                result: result_view(result),
            },
        ),
        _ => None,
    }
}

/// The Providers that answered, in registration order.
pub open spec fn found(slots: Seq<Option<ProviderDiscovery>>) -> Seq<DiscoveryModel>
    decreases slots.len(),
{
    if slots.len() == 0 {
        Seq::empty()
    } else {
        match slots.last() {
            Some(discovery) => found(slots.drop_last()).push(discovery@),
            None => found(slots.drop_last()),
        }
    }
}

/// Routes requests to the compiled-in Provider Workspaces.
pub struct ProviderRuntime {
    workspaces: Vec<BuiltinProvider>,
}

impl View for ProviderRuntime {
    type V = Seq<BuiltinProvider>;

    closed spec fn view(&self) -> Seq<BuiltinProvider> {
        self.workspaces@
    }
}

impl BuiltinProvider {
    pub fn id(&self) -> (id: ProviderId)
        ensures
            id@ == builtin_id(*self),
    {
        match self {
            BuiltinProvider::Docker => ProviderId::new("docker"),
            BuiltinProvider::Incus => ProviderId::new("incus"),
            BuiltinProvider::DockerSandbox => ProviderId::new("docker-sandbox"),
        }
    }
}

/// The first of several Providers with an identity.
pub open spec fn first_named(providers: Seq<BuiltinProvider>, id: Seq<char>) -> Option<
    BuiltinProvider,
>
    decreases providers.len(),
{
    if providers.len() == 0 {
        None
    } else if builtin_id(providers[0]) == id {
        Some(providers[0])
    } else {
        first_named(providers.drop_first(), id)
    }
}

impl ProviderRuntime {
    pub fn with_builtin_providers() -> (runtime: Self)
        ensures
            runtime@ == registration_order(),
    {
        let mut workspaces: Vec<BuiltinProvider> = Vec::new();
        workspaces.push(BuiltinProvider::Docker);
        workspaces.push(BuiltinProvider::Incus);
        workspaces.push(BuiltinProvider::DockerSandbox);
        assert(workspaces@ =~= registration_order());
        ProviderRuntime::new(workspaces)
    }

    pub fn new(workspaces: Vec<BuiltinProvider>) -> (runtime: Self)
        ensures
            runtime@ == workspaces@,
    {
        ProviderRuntime { workspaces }
    }

    /// The Provider Workspaces, in registration order.
    pub fn workspaces(&self) -> (workspaces: &Vec<BuiltinProvider>)
        ensures
            workspaces@ == self@,
    {
        &self.workspaces
    }

    /// The Provider Workspace with an identity.
    pub fn workspace(&self, provider_id: &ProviderId) -> (workspace: Option<BuiltinProvider>)
        ensures
            workspace == first_named(self@, provider_id@),
    {
        let ghost all = self@;
        let mut i: usize = 0;
        assert(all.skip(0) =~= all);
        while i < self.workspaces.len()
            invariant
                i <= self.workspaces.len(),
                all == self.workspaces@,
                first_named(all, provider_id@) == first_named(all.skip(i as int), provider_id@),
            decreases self.workspaces.len() - i,
        {
            assert(all.skip(i as int)[0] == self.workspaces@[i as int]);
            assert(all.skip(i as int).drop_first() =~= all.skip(i + 1));
            if self.workspaces[i].id().same(provider_id) {
                return Some(self.workspaces[i]);
            }
            i = i + 1;
        }
        None
    }

    /// The Provider Workspace that a request is for. A request for a Provider
    /// that is not there is dropped.
    pub fn dispatch(&self, request: &ProviderRequest) -> (workspace: Option<BuiltinProvider>)
        ensures
            workspace == first_named(self@, addressee(request@)),
    {
        match request {
            ProviderRequest::RefreshWorkspace { provider_id, .. } => self.workspace(provider_id),
            ProviderRequest::ExecuteResourceCommand { provider_id, .. } => self.workspace(
                provider_id,
            ),
            ProviderRequest::LoadResourceDetails { provider_id, .. } => self.workspace(provider_id),
        }
    }

    /// The Providers that answered, in registration order, from one slot for
    /// each Provider Workspace.
    pub fn discovered(&self, slots: Vec<Option<ProviderDiscovery>>) -> (discovered: Vec<
        ProviderDiscovery,
    >)
        ensures
            views(discovered@) == found(slots@),
    {
        let ghost all = slots@;
        let mut discovered: Vec<ProviderDiscovery> = Vec::new();
        assert(views(discovered@) =~= Seq::<DiscoveryModel>::empty());
        for slot in iter: slots
            invariant
                iter.seq() == all,
                views(discovered@) == found(all.take(iter.index())),
        {
            proof {
                let i = iter.index();
                assert(all.take(i + 1).drop_last() =~= all.take(i));
                assert(all.take(i + 1).last() == slot);
            }
            match slot {
                Some(discovery) => {
                    let ghost before = discovered@;
                    discovered.push(discovery);
                    assert(views(discovered@) =~= views(before).push(discovery@));
                },
                None => {},
            }
        }
        assert(all.take(all.len() as int) =~= all);
        discovered
    }
}

/// The event that tells the application how its request ended.
pub fn completion(request: ProviderRequest, outcome: ProviderOutcome) -> (event: Option<AppEvent>)
    ensures
        event matches Some(event) ==> completion_of(request@, outcome) == Some(event@),
        event is None ==> completion_of(request@, outcome) is None,
{
    match (request, outcome) {
        (
            ProviderRequest::RefreshWorkspace { request_id, provider_id },
            ProviderOutcome::Refreshed(result),
        ) => Some(AppEvent::RefreshCompleted { request_id, provider_id, result }),
        (
            ProviderRequest::ExecuteResourceCommand { request_id, provider_id, target, command, .. },
            ProviderOutcome::Commanded(result),
        ) => Some(
            AppEvent::ResourceCommandCompleted {
                request_id,
                provider_id,
                target,
                command,
                result,
            },
        ),
        (
            ProviderRequest::LoadResourceDetails { request_id, provider_id, target, view_id },
            ProviderOutcome::Loaded(result),
        ) => Some(
            AppEvent::ResourceDetailsCompleted {
                request_id,
                provider_id,
                target,
                view_id,
                result,
            },
        ),
        _ => None,
    }
}

/// Every compiled-in Provider answers to its own identity, and to no other.
pub proof fn law_every_provider_answers_to_its_identity(id: Seq<char>)
    ensures
        first_named(registration_order(), id) == answering(id),
        answering("docker"@) == Some(BuiltinProvider::Docker),
        answering("incus"@) == Some(BuiltinProvider::Incus),
        answering("docker-sandbox"@) == Some(BuiltinProvider::DockerSandbox),
{
    reveal_strlit("docker");
    reveal_strlit("incus");
    reveal_strlit("docker-sandbox");
    let all = registration_order();
    assert("docker"@.len() != "incus"@.len());
    assert("docker"@.len() != "docker-sandbox"@.len());
    assert("incus"@.len() != "docker-sandbox"@.len());
    assert(all.drop_first() =~= seq![BuiltinProvider::Incus, BuiltinProvider::DockerSandbox]);
    assert(all.drop_first().drop_first() =~= seq![BuiltinProvider::DockerSandbox]);
    assert(all.drop_first().drop_first().drop_first() =~= Seq::<BuiltinProvider>::empty());
    reveal_with_fuel(first_named, 4);
}

} // verus!
