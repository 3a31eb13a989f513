//! The identities and states that every layer speaks of.

use vstd::prelude::*;
use vstd::string::*;

use crate::text::{opt_view, same_text};

verus! {

/// Stable identity of one Provider.
#[derive(Debug, PartialEq, Eq, Hash)]
pub struct ProviderId(pub String);

impl View for ProviderId {
    type V = Seq<char>;

    open spec fn view(&self) -> Seq<char> {
        self.0@
    }
}

impl Clone for ProviderId {
    fn clone(&self) -> (copy: Self)
        ensures
            copy == *self,
    {
        ProviderId(self.0.clone())
    }
}

impl ProviderId {
    pub fn new(value: &str) -> (id: Self)
        ensures
            id@ == value@,
    {
        ProviderId(value.to_owned())
    }

    pub fn as_str(&self) -> (text: &str)
        ensures
            text@ == self@,
    {
        self.0.as_str()
    }

    /// Whether two identities are spelled the same.
    pub fn same(&self, other: &Self) -> (same: bool)
        ensures
            same == (self@ == other@),
    {
        self.0 == other.0
    }
}

/// The Provider-selected destination that owns the Resources Tuivir operates.
///
/// This is deliberately distinct from [`ProviderVersion`]: a Docker context or
/// Incus remote/project says where work happens, while a version says which
/// Provider build happens to be installed.
#[derive(Debug, PartialEq, Eq, Hash)]
pub struct TargetEnvironment(String);

impl View for TargetEnvironment {
    type V = Seq<char>;

    closed spec fn view(&self) -> Seq<char> {
        self.0@
    }
}

impl Clone for TargetEnvironment {
    fn clone(&self) -> (copy: Self)
        ensures
            copy == *self,
    {
        TargetEnvironment(self.0.clone())
    }
}

impl TargetEnvironment {
    pub fn new(value: &str) -> (text: Self)
        ensures
            text@ == value@,
    {
        TargetEnvironment(value.to_owned())
    }

    pub fn as_str(&self) -> (text: &str)
        ensures
            text@ == self@,
    {
        self.0.as_str()
    }
}

impl PartialEq<&str> for TargetEnvironment {
    fn eq(&self, other: &&str) -> (same: bool) {
        same_text(self.0.as_str(), *other)
    }
}

impl vstd::std_specs::cmp::PartialEqSpecImpl<&str> for TargetEnvironment {
    open spec fn obeys_eq_spec() -> bool {
        true
    }

    open spec fn eq_spec(&self, other: &&str) -> bool {
        self@ == other@
    }
}

/// The installed Provider build, when discovery can report it.
#[derive(Debug, PartialEq, Eq, Hash)]
pub struct ProviderVersion(String);

impl View for ProviderVersion {
    type V = Seq<char>;

    closed spec fn view(&self) -> Seq<char> {
        self.0@
    }
}

impl Clone for ProviderVersion {
    fn clone(&self) -> (copy: Self)
        ensures
            copy == *self,
    {
        ProviderVersion(self.0.clone())
    }
}

impl ProviderVersion {
    pub fn new(value: &str) -> (text: Self)
        ensures
            text@ == value@,
    {
        ProviderVersion(value.to_owned())
    }

    pub fn as_str(&self) -> (text: &str)
        ensures
            text@ == self@,
    {
        self.0.as_str()
    }
}

/// The stable identity and descriptive information of one installed Provider.
#[derive(Debug, PartialEq, Eq)]
pub struct Provider {
    id: ProviderId,
    name: String,
    target_environment: Option<TargetEnvironment>,
    version: Option<ProviderVersion>,
}

/// What a [`Provider`] says.
#[verifier::ext_equal]
pub struct ProviderModel {
    pub id: Seq<char>,
    pub name: Seq<char>,
    pub target_environment: Option<Seq<char>>,
    pub version: Option<Seq<char>>,
}

impl View for Provider {
    type V = ProviderModel;

    closed spec fn view(&self) -> ProviderModel {
        ProviderModel {
            id: self.id@,
            name: self.name@,
            target_environment: opt_view(self.target_environment),
            version: opt_view(self.version),
        }
    }
}

impl Clone for Provider {
    fn clone(&self) -> (copy: Self)
        ensures
            copy == *self,
    {
        Provider {
            id: self.id.clone(),
            name: self.name.clone(),
            target_environment: match &self.target_environment {
                Some(target) => Some(target.clone()),
                None => None,
            },
            version: match &self.version {
                Some(version) => Some(version.clone()),
                None => None,
            },
        }
    }
}

impl Provider {
    pub fn new(
        id: ProviderId,
        name: &str,
        target_environment: Option<TargetEnvironment>,
        version: Option<ProviderVersion>,
    ) -> (provider: Self)
        ensures
            provider@ == (ProviderModel {
                id: id@,
                name: name@,
                target_environment: opt_view(target_environment),
                version: opt_view(version),
            }),
    {
        Provider { id, name: name.to_owned(), target_environment, version }
    }

    pub fn id(&self) -> (id: &ProviderId)
        ensures
            id@ == self@.id,
    {
        &self.id
    }

    pub fn name(&self) -> (name: &str)
        ensures
            name@ == self@.name,
    {
        self.name.as_str()
    }

    pub fn target_environment(&self) -> (target: Option<&TargetEnvironment>)
        ensures
            opt_view(target) == self@.target_environment,
    {
        self.target_environment.as_ref()
    }

    pub fn version(&self) -> (version: Option<&ProviderVersion>)
        ensures
            opt_view(version) == self@.version,
    {
        self.version.as_ref()
    }
}

/// What a Provider reported a Resource to be doing at the last refresh.
///
/// This is a provider-neutral vocabulary that each Provider Workspace maps its
/// own status words into so application policy never branches on Provider
/// identity.
///
/// Only [`ResourceState::Stopped`] is ever positively determined. Every other
/// variant, `Unknown` included, means "not settled and stopped", which is what
/// makes forcing a deletion the safe default: an unrecognised status can never
/// masquerade as a stopped Resource.
#[derive(Clone, Copy, Debug, PartialEq, Eq, Structural)]
pub enum ResourceState {
    Running,
    /// Settled and not running: safe to remove without stopping anything first.
    Stopped,
    /// Suspended but still resident: Docker `paused`, Incus `Frozen`.
    Paused,
    /// Moving between states: Docker `restarting`/`removing`, Incus
    /// `Starting`/`Stopping`/`Freezing`/`Thawing`.
    Transitioning,
    /// The Provider reports the Resource as unusable: Docker `dead`, Incus
    /// `Error`.
    Broken,
    /// A status word this Provider Workspace does not recognise.
    Unknown,
}

/// Stable provider-defined identity for one Resource Panel.
#[derive(Debug, PartialEq, Eq, Hash)]
pub struct ResourcePanelId(pub String);

impl View for ResourcePanelId {
    type V = Seq<char>;

    open spec fn view(&self) -> Seq<char> {
        self.0@
    }
}

impl Clone for ResourcePanelId {
    fn clone(&self) -> (copy: Self)
        ensures
            copy == *self,
    {
        ResourcePanelId(self.0.clone())
    }
}

impl ResourcePanelId {
    pub fn new(value: &str) -> (id: Self)
        ensures
            id@ == value@,
    {
        ResourcePanelId(value.to_owned())
    }

    pub fn as_str(&self) -> (text: &str)
        ensures
            text@ == self@,
    {
        self.0.as_str()
    }

    /// Whether two identities are spelled the same.
    pub fn same(&self, other: &Self) -> (same: bool)
        ensures
            same == (self@ == other@),
    {
        self.0 == other.0
    }
}

/// Provider-defined identity of one Resource inside its Resource Panel.
#[derive(Debug, PartialEq, Eq, Hash)]
pub struct ResourceId(pub String);

impl View for ResourceId {
    type V = Seq<char>;

    open spec fn view(&self) -> Seq<char> {
        self.0@
    }
}

impl Clone for ResourceId {
    fn clone(&self) -> (copy: Self)
        ensures
            copy == *self,
    {
        ResourceId(self.0.clone())
    }
}

impl ResourceId {
    pub fn new(value: &str) -> (id: Self)
        ensures
            id@ == value@,
    {
        ResourceId(value.to_owned())
    }

    pub fn as_str(&self) -> (text: &str)
        ensures
            text@ == self@,
    {
        self.0.as_str()
    }

    /// Whether two identities are spelled the same.
    pub fn same(&self, other: &Self) -> (same: bool)
        ensures
            same == (self@ == other@),
    {
        self.0 == other.0
    }
}

/// Identifies one Resource within its provider-defined Resource Panel.
#[derive(Debug, PartialEq, Eq, Hash)]
pub struct ResourceTarget {
    panel_id: ResourcePanelId,
    resource_id: ResourceId,
}

/// What a [`ResourceTarget`] names.
#[verifier::ext_equal]
pub struct TargetModel {
    pub panel_id: Seq<char>,
    pub resource_id: Seq<char>,
}

impl View for ResourceTarget {
    type V = TargetModel;

    closed spec fn view(&self) -> TargetModel {
        TargetModel { panel_id: self.panel_id@, resource_id: self.resource_id@ }
    }
}

impl Clone for ResourceTarget {
    fn clone(&self) -> (copy: Self)
        ensures
            copy == *self,
    {
        ResourceTarget { panel_id: self.panel_id.clone(), resource_id: self.resource_id.clone() }
    }
}

impl ResourceTarget {
    pub fn new(panel_id: ResourcePanelId, resource_id: ResourceId) -> (target: Self)
        ensures
            target@ == (TargetModel { panel_id: panel_id@, resource_id: resource_id@ }),
    {
        ResourceTarget { panel_id, resource_id }
    }

    pub fn panel_id(&self) -> (id: &ResourcePanelId)
        ensures
            id@ == self@.panel_id,
    {
        &self.panel_id
    }

    pub fn resource_id(&self) -> (id: &ResourceId)
        ensures
            id@ == self@.resource_id,
    {
        &self.resource_id
    }

    /// The text that names the target to the user: its Resource's identity.
    pub fn as_str(&self) -> (text: &str)
        ensures
            text@ == self@.resource_id,
    {
        self.resource_id.as_str()
    }

    /// Whether two targets name the same Resource in the same panel.
    pub fn same(&self, other: &Self) -> (same: bool)
        ensures
            same == (self@ == other@),
    {
        self.panel_id.same(&other.panel_id) && self.resource_id.same(&other.resource_id)
    }
}

/// Identifies one Detail View a Provider Workspace offers for its Resources.
#[derive(Debug, PartialEq, Eq, Hash)]
pub struct DetailViewId(pub String);

impl View for DetailViewId {
    type V = Seq<char>;

    open spec fn view(&self) -> Seq<char> {
        self.0@
    }
}

impl Clone for DetailViewId {
    fn clone(&self) -> (copy: Self)
        ensures
            copy == *self,
    {
        DetailViewId(self.0.clone())
    }
}

impl DetailViewId {
    pub fn new(value: &str) -> (id: Self)
        ensures
            id@ == value@,
    {
        DetailViewId(value.to_owned())
    }

    pub fn as_str(&self) -> (text: &str)
        ensures
            text@ == self@,
    {
        self.0.as_str()
    }

    /// Whether two identities are spelled the same.
    pub fn same(&self, other: &Self) -> (same: bool)
        ensures
            same == (self@ == other@),
    {
        self.0 == other.0
    }
}

} // verus!
