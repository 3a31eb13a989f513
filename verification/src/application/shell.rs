//! Resource Shell Sessions: their identity, lifecycle, and the host work they
//! ask for.

use vstd::prelude::*;
use vstd::string::*;

use crate::domain::{ProviderId, ResourceTarget, TargetModel};
use crate::text::{clone_texts, views};

verus! {

/// The explicit Provider CLI program and arguments for one Resource Shell
/// Session.
///
/// This value describes the application request without exposing a process
/// runner or its failure types. The host hands it to an infrastructure adapter.
#[derive(Debug, PartialEq, Eq)]
pub struct ResourceShellProcess {
    program: String,
    args: Vec<String>,
}

/// The same process, under the name that Provider Workspaces offer it by.
pub type InteractiveShellProcess = ResourceShellProcess;

/// What a [`ResourceShellProcess`] runs.
#[verifier::ext_equal]
pub struct ProcessModel {
    pub program: Seq<char>,
    pub args: Seq<Seq<char>>,
}

impl View for ResourceShellProcess {
    type V = ProcessModel;

    closed spec fn view(&self) -> ProcessModel {
        ProcessModel { program: self.program@, args: views(self.args@) }
    }
}

impl Clone for ResourceShellProcess {
    fn clone(&self) -> (copy: Self)
        ensures
            copy@ == self@,
    {
        ResourceShellProcess { program: self.program.clone(), args: clone_texts(&self.args) }
    }
}

/// Owned copies of a list of texts.
pub fn owned_texts(texts: &[&str]) -> (owned: Vec<String>)
    ensures
        views(owned@) == views(texts@),
{
    let mut owned: Vec<String> = Vec::new();
    let mut i: usize = 0;
    while i < texts.len()
        invariant
            i <= texts.len(),
            views(owned@) == views(texts@).take(i as int),
        decreases texts.len() - i,
    {
        let ghost before = owned@;
        owned.push(texts[i].to_owned());
        i = i + 1;
        proof {
            assert(views(owned@) =~= views(before).push(texts@[i - 1]@));
            assert(views(texts@).take(i as int) =~= views(texts@).take(i - 1).push(
                texts@[i - 1]@,
            ));
        }
    }
    assert(views(texts@).take(i as int) =~= views(texts@));
    owned
}

impl ResourceShellProcess {
    pub fn new(program: &str, args: &[&str]) -> (process: Self)
        ensures
            process@ == (ProcessModel { program: program@, args: views(args@) }),
    {
        ResourceShellProcess { program: program.to_owned(), args: owned_texts(args) }
    }

    pub fn program(&self) -> (program: &str)
        ensures
            program@ == self@.program,
    {
        self.program.as_str()
    }

    pub fn args(&self) -> (args: &Vec<String>)
        ensures
            views(args@) == self@.args,
    {
        &self.args
    }
}

/// Stable identity allocated by application state for one Resource Shell
/// Session lifetime.
#[derive(Clone, Copy, Debug, PartialEq, Eq, Hash, Structural)]
pub struct ResourceShellSessionId(pub u64);

impl ResourceShellSessionId {
    pub fn new(value: u64) -> (id: Self)
        ensures
            id.0 == value,
    {
        ResourceShellSessionId(value)
    }

    pub fn value(&self) -> (value: u64)
        ensures
            value == self.0,
    {
        self.0
    }
}

/// The user-visible lifecycle of a Resource Shell Session.
#[derive(Debug, PartialEq, Eq)]
pub enum ResourceShellSessionLifecycle {
    Starting,
    Running,
    Exited,
    StartFailed(String),
}

/// Where a session stands in its life.
#[verifier::ext_equal]
pub enum LifecycleModel {
    Starting,
    Running,
    Exited,
    StartFailed(Seq<char>),
}

impl View for ResourceShellSessionLifecycle {
    type V = LifecycleModel;

    open spec fn view(&self) -> LifecycleModel {
        match self {
            ResourceShellSessionLifecycle::Starting => LifecycleModel::Starting,
            ResourceShellSessionLifecycle::Running => LifecycleModel::Running,
            ResourceShellSessionLifecycle::Exited => LifecycleModel::Exited,
            ResourceShellSessionLifecycle::StartFailed(reason) => LifecycleModel::StartFailed(
                reason@,
            ),
        }
    }
}

impl Clone for ResourceShellSessionLifecycle {
    fn clone(&self) -> (copy: Self)
        ensures
            copy == *self,
    {
        match self {
            ResourceShellSessionLifecycle::Starting => ResourceShellSessionLifecycle::Starting,
            ResourceShellSessionLifecycle::Running => ResourceShellSessionLifecycle::Running,
            ResourceShellSessionLifecycle::Exited => ResourceShellSessionLifecycle::Exited,
            ResourceShellSessionLifecycle::StartFailed(
                reason,
            ) => ResourceShellSessionLifecycle::StartFailed(reason.clone()),
        }
    }
}

/// Application-owned identity and lifecycle for one Resource Shell Session.
///
/// Live child, PTY, I/O, and terminal-engine state intentionally do not cross
/// this boundary. The host registry owns them under `id`.
#[derive(Debug, PartialEq, Eq)]
pub struct ResourceShellSession {
    pub id: ResourceShellSessionId,
    pub provider_id: ProviderId,
    pub provider_name: String,
    pub target: ResourceTarget,
    pub resource_name: String,
    pub lifecycle: ResourceShellSessionLifecycle,
}

/// What a [`ResourceShellSession`] records.
#[verifier::ext_equal]
pub struct SessionModel {
    pub id: ResourceShellSessionId,
    pub provider_id: Seq<char>,
    pub provider_name: Seq<char>,
    pub target: TargetModel,
    pub resource_name: Seq<char>,
    pub lifecycle: LifecycleModel,
}

impl View for ResourceShellSession {
    type V = SessionModel;

    open spec fn view(&self) -> SessionModel {
        SessionModel {
            id: self.id,
            provider_id: self.provider_id@,
            provider_name: self.provider_name@,
            target: self.target@,
            resource_name: self.resource_name@,
            lifecycle: self.lifecycle@,
        }
    }
}

impl Clone for ResourceShellSession {
    fn clone(&self) -> (copy: Self)
        ensures
            copy == *self,
    {
        ResourceShellSession {
            id: self.id,
            provider_id: self.provider_id.clone(),
            provider_name: self.provider_name.clone(),
            target: self.target.clone(),
            resource_name: self.resource_name.clone(),
            lifecycle: self.lifecycle.clone(),
        }
    }
}

impl SessionModel {
    /// Whether the host has, or is about to have, a process for the session.
    pub open spec fn is_live(self) -> bool {
        self.lifecycle is Starting || self.lifecycle is Running
    }

    /// Whether the session belongs to one Resource of one Provider.
    pub open spec fn is_for(self, provider_id: Seq<char>, target: TargetModel) -> bool {
        self.provider_id == provider_id && self.target == target
    }
}

impl ResourceShellSession {
    pub fn is_live(&self) -> (live: bool)
        ensures
            live == self@.is_live(),
    {
        match self.lifecycle {
            ResourceShellSessionLifecycle::Starting => true,
            ResourceShellSessionLifecycle::Running => true,
            _ => false,
        }
    }

    pub fn is_for(&self, provider_id: &ProviderId, target: &ResourceTarget) -> (same: bool)
        ensures
            same == self@.is_for(provider_id@, target@),
    {
        self.provider_id.same(provider_id) && self.target.same(target)
    }
}

/// Where a visible Resource Shell Session is drawn.
#[derive(Clone, Copy, Debug, PartialEq, Eq, Structural)]
pub enum ResourceShellPresentation {
    /// Inside the Details Pane, beside the Resource Panels.
    Details,
    /// Over the whole Workspace.
    Enlarged,
}

/// Host work requested by the application for a Resource Shell Session.
#[derive(Debug, PartialEq, Eq)]
pub enum ResourceShellEffect {
    Start { session: ResourceShellSession, process: ResourceShellProcess },
}

/// What a [`ResourceShellEffect`] asks for.
#[verifier::ext_equal]
pub enum EffectModel {
    Start { session: SessionModel, process: ProcessModel },
}

impl View for ResourceShellEffect {
    type V = EffectModel;

    open spec fn view(&self) -> EffectModel {
        match self {
            ResourceShellEffect::Start { session, process } => EffectModel::Start {
                session: session@,
                process: process@,
            },
        }
    }
}

} // verus!
