//! Provider Workspaces: which processes each one runs, and how it reads their
//! output.

use vstd::prelude::*;
use vstd::string::*;

use super::process::{failure_message, ProcessError, ProcessErrorModel};
use crate::application::app::model::EventModel;
use crate::application::app::AppEvent;
use crate::application::command::{resource_command_text, ResourceCommand};
use crate::application::provider::WorkspaceError;
use crate::domain::{Provider, ProviderModel, ResourceId, ResourceState};
use crate::text::opt_view;

pub mod docker;
pub mod docker_sandbox;
pub mod incus;
pub mod laws;

verus! {

/// What a Provider CLI left behind, with no suggested next step attached.
pub open spec fn cli_error_text(
    provider_name: Seq<char>,
    error: ProcessErrorModel,
    fallback: Seq<char>,
) -> Seq<char> {
    match error {
        ProcessErrorModel::ExecutableNotFound => provider_name + " CLI is no longer available"@,
        ProcessErrorModel::SpawnFailed(reason) => provider_name + " CLI could not be started: "@
            + reason,
        ProcessErrorModel::Exited(failure) => failure_message(failure, fallback),
    }
}

/// What a Provider CLI left behind, with no suggested next step attached.
///
/// `fallback` carries the caller's meaning for a process that failed without
/// writing anything at all.
pub fn provider_cli_error(provider_name: &str, error: &ProcessError, fallback: &str) -> (text:
    String)
    ensures
        text@ == cli_error_text(provider_name@, error@, fallback@),
{
    match error {
        ProcessError::ExecutableNotFound => {
            let mut text = provider_name.to_owned();
            text.append(" CLI is no longer available");
            text
        },
        ProcessError::SpawnFailed(reason) => {
            let mut text = provider_name.to_owned();
            text.append(" CLI could not be started: ");
            text.append(reason.as_str());
            text
        },
        ProcessError::Exited(failure) => failure.message_or(fallback),
    }
}

/// What to say of a Resource whose state no refresh reported.
pub open spec fn unknown_state_text(
    provider_name: Seq<char>,
    kind: Seq<char>,
    command: ResourceCommand,
    resource_id: Seq<char>,
) -> Seq<char> {
    provider_name + " could not "@ + resource_command_text(command) + " "@ + kind + " "@
        + resource_id + ": its state is not known"@
}

/// The state that a Command needs to know before it is run.
pub fn require_resource_state(
    state: Option<ResourceState>,
    provider_name: &str,
    kind: &str,
    command: ResourceCommand,
    resource_id: &ResourceId,
) -> (result: Result<ResourceState, WorkspaceError>)
    ensures
        result matches Ok(known) ==> state == Some(known),
        result matches Err(error) ==> state is None && error@ == unknown_state_text(
            provider_name@,
            kind@,
            command,
            resource_id@,
        ),
{
    match state {
        Some(known) => Ok(known),
        None => {
            let mut text = provider_name.to_owned();
            text.append(" could not ");
            text.append(command.as_str());
            text.append(" ");
            text.append(kind);
            text.append(" ");
            text.append(resource_id.as_str());
            text.append(": its state is not known");
            Err(WorkspaceError { message: text })
        },
    }
}

/// The presence and initial state of an installed provider.
///
/// `error` distinguishes an installed-but-unreachable provider from an absent
/// CLI, which no discovery stands for.
#[derive(Debug, PartialEq, Eq)]
pub struct ProviderDiscovery {
    provider: Provider,
    error: Option<WorkspaceError>,
}

/// What a [`ProviderDiscovery`] found.
#[verifier::ext_equal]
pub struct DiscoveryModel {
    pub provider: ProviderModel,
    pub error: Option<Seq<char>>,
}

impl View for ProviderDiscovery {
    type V = DiscoveryModel;

    closed spec fn view(&self) -> DiscoveryModel {
        DiscoveryModel { provider: self.provider@, error: opt_view(self.error) }
    }
}

impl ProviderDiscovery {
    pub fn new(provider: Provider, error: Option<WorkspaceError>) -> (discovery: Self)
        ensures
            discovery@ == (DiscoveryModel { provider: provider@, error: opt_view(error) }),
    {
        ProviderDiscovery { provider, error }
    }

    pub fn provider(&self) -> (provider: &Provider)
        ensures
            provider@ == self@.provider,
    {
        &self.provider
    }

    pub fn error(&self) -> (error: Option<&WorkspaceError>)
        ensures
            opt_view(error) == self@.error,
    {
        self.error.as_ref()
    }

    pub fn into_parts(self) -> (parts: (Provider, Option<WorkspaceError>))
        ensures
            parts.0@ == self@.provider,
            opt_view(parts.1) == self@.error,
    {
        (self.provider, self.error)
    }

    /// The event that tells the application of the Provider.
    pub fn into_event(self) -> (event: AppEvent)
        ensures
            event@ == (EventModel::ProviderDiscovered {
                provider: self@.provider,
                error: self@.error,
            }),
    {
        let (provider, error) = self.into_parts();
        AppEvent::ProviderDiscovered { provider, error }
    }
}

} // verus!
