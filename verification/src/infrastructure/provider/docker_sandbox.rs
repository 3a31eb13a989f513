//! Docker Sandbox, which is looked for and not offered yet.

use vstd::prelude::*;
use vstd::string::*;

use super::ProviderDiscovery;
use crate::application::command::ResourceCommand;
use crate::application::provider::{ResourceDetails, WorkspaceError, WorkspaceSnapshot};
use crate::application::shell::ProcessModel;
use crate::domain::{DetailViewId, ProviderId, ResourceState, ResourceTarget};
use crate::infrastructure::process::{ProcessError, ProcessOutput, ProcessSpec};

verus! {

/// The process that tells whether the CLI is installed.
pub open spec fn version_query() -> ProcessModel {
    ProcessModel { program: "sbx"@, args: seq!["version"@] }
}

/// The Docker Sandbox Provider Workspace.
pub struct DockerSandboxWorkspace;

impl DockerSandboxWorkspace {
    pub fn id(&self) -> (id: ProviderId)
        ensures
            id@ == "docker-sandbox"@,
    {
        ProviderId::new("docker-sandbox")
    }

    /// The process that tells whether the CLI is installed.
    pub fn discovery_process(&self) -> (process: ProcessSpec)
        ensures
            process@ == version_query(),
    {
        let process = ProcessSpec::new("sbx", &["version"]);
        assert(process@.args =~= seq!["version"@]);
        process
    }

    /// No Provider is offered, whatever the CLI answered.
    pub fn discovered(&self, result: Result<ProcessOutput, ProcessError>) -> (discovery: Option<
        ProviderDiscovery,
    >)
        ensures
            discovery is None,
    {
        None
    }

    /// No snapshot is offered yet.
    pub fn refresh(&self) -> (result: Result<WorkspaceSnapshot, WorkspaceError>)
        ensures
            result matches Err(error) && error@ == "not implemented"@,
    {
        Err(WorkspaceError::new("not implemented"))
    }

    /// No Command is offered yet.
    pub fn execute_command(
        &self,
        target: &ResourceTarget,
        command: ResourceCommand,
        state: Option<ResourceState>,
    ) -> (result: Result<(), WorkspaceError>)
        ensures
            result matches Err(error) && error@ == "not implemented"@,
    {
        Err(WorkspaceError::new("not implemented"))
    }

    /// No Detail View is offered yet.
    pub fn load_details(&self, target: &ResourceTarget, view_id: &DetailViewId) -> (result: Result<
        ResourceDetails,
        WorkspaceError,
    >)
        ensures
            result matches Err(error) && error@ == "not implemented"@,
    {
        Err(WorkspaceError::new("not implemented"))
    }
}

} // verus!
