//! Incus: its instances.

use vstd::prelude::*;
use vstd::string::*;

use super::docker::{details_result, process_result, provider_view, snapshot_result};
use super::{
    cli_error_text, provider_cli_error, require_resource_state, unknown_state_text, DiscoveryModel,
    ProviderDiscovery,
};
use crate::application::command::{resource_command_text, ResourceCommand};
use crate::application::provider::{
    lifecycle_commands, output_lines, possible_commands, DetailView, LifecycleCommandPolicy,
    PanelModel, Resource, ResourceDetails, ResourceModel, ResourcePanel, WorkspaceError,
    WorkspaceSnapshot,
};
use crate::application::shell::{ProcessModel, ResourceShellProcess};
use crate::domain::{
    DetailViewId, Provider, ProviderId, ProviderModel, ResourceId, ResourcePanelId, ResourceState,
    ResourceTarget, TargetEnvironment, TargetModel,
};
use crate::infrastructure::process::{
    ending, OutputModel, ProcessError, ProcessErrorModel, ProcessOutput, ProcessSpec,
};
use crate::text::{
    eq_ignore_ascii_case, opt_view, same_ignoring_case, same_text, trim, trimmed, views,
};

verus! {

/// The Incus Provider Workspace.
pub struct IncusWorkspace;

/// One instance, as `incus list` lists it.
#[derive(Debug, PartialEq, Eq)]
pub struct InstanceRow {
    pub name: String,
    pub status: String,
    pub instance_type: String,
    pub architecture: String,
    pub location: String,
}

#[verifier::ext_equal]
pub struct InstanceRowModel {
    pub name: Seq<char>,
    pub status: Seq<char>,
    pub instance_type: Seq<char>,
    pub architecture: Seq<char>,
    pub location: Seq<char>,
}

impl View for InstanceRow {
    type V = InstanceRowModel;

    open spec fn view(&self) -> InstanceRowModel {
        InstanceRowModel {
            name: self.name@,
            status: self.status@,
            instance_type: self.instance_type@,
            architecture: self.architecture@,
            location: self.location@,
        }
    }
}

pub open spec fn incus(args: Seq<Seq<char>>) -> ProcessModel {
    ProcessModel { program: "incus"@, args }
}

/// The process that tells the default remote.
pub open spec fn remote_query() -> ProcessModel {
    incus(seq!["remote"@, "get-default"@])
}

/// The process that tells the current project.
pub open spec fn project_query() -> ProcessModel {
    incus(seq!["project"@, "get-current"@])
}

/// The process that lists instances.
pub open spec fn instance_query() -> ProcessModel {
    incus(seq!["list"@, "--format=json"@])
}

/// What a user can run to check a refresh that failed.
pub open spec fn refresh_help() -> Seq<char> {
    "Run `incus list` to verify access to the current Target Environment."@
}

/// Incus without a Target Environment, why, and what to run.
pub open spec fn unreachable_incus(message: Seq<char>, command: Seq<char>) -> DiscoveryModel {
    DiscoveryModel {
        provider: ProviderModel {
            id: "incus"@,
            name: "Incus"@,
            target_environment: None,
            version: None,
        },
        error: Some(
            message + ". "@ + ("Run `"@ + command + "` to verify the selected Target Environment."@),
        ),
    }
}

/// What the answers to the two questions about the Target Environment say of
/// Incus. An absent CLI is no Provider at all, and the remote is looked at
/// first.
pub open spec fn incus_discovery(
    remote: Result<OutputModel, ProcessErrorModel>,
    project: Result<OutputModel, ProcessErrorModel>,
) -> Option<DiscoveryModel> {
    match remote {
        Err(ProcessErrorModel::ExecutableNotFound) => None,
        Err(error) => Some(
            unreachable_incus(
                cli_error_text("Incus"@, error, "Incus could not report its default remote"@),
                "incus remote get-default"@,
            ),
        ),
        Ok(remote) => match project {
            Err(error) => Some(
                unreachable_incus(
                    cli_error_text("Incus"@, error, "Incus could not report the current project"@),
                    "incus project get-current"@,
                ),
            ),
            Ok(project) => Some(
                DiscoveryModel {
                    provider: ProviderModel {
                        id: "incus"@,
                        name: "Incus"@,
                        target_environment: Some(
                            trimmed(remote.stdout) + " / "@ + trimmed(project.stdout),
                        ),
                        version: None,
                    },
                    error: None,
                },
            ),
        },
    }
}

/// The shared reading of an instance's status.
///
/// Incus reports settled statuses (`Running`, `Stopped`, `Frozen`, `Error`)
/// alongside the transitional ones an operation passes through; anything else
/// is deliberately left `Unknown` rather than assumed to be stopped.
pub open spec fn instance_state(status: Seq<char>) -> ResourceState {
    if same_ignoring_case(status, "running"@) {
        ResourceState::Running
    } else if same_ignoring_case(status, "stopped"@) {
        ResourceState::Stopped
    } else if same_ignoring_case(status, "frozen"@) {
        ResourceState::Paused
    } else if same_ignoring_case(status, "starting"@) || same_ignoring_case(status, "stopping"@)
        || same_ignoring_case(status, "freezing"@) || same_ignoring_case(status, "thawing"@) {
        ResourceState::Transitioning
    } else if same_ignoring_case(status, "error"@) {
        ResourceState::Broken
    } else {
        ResourceState::Unknown
    }
}

/// The shell inside an instance.
///
/// `incus exec` reaches only into a running instance, so every other state
/// offers none. An instance is a whole system rather than one packaged
/// process, so the shell worth giving the user is root's login shell: this is
/// what Incus's own `shell` alias expands to, spelled out here so it does not
/// depend on that alias surviving in the user's configuration.
pub open spec fn shell_in_instance(state: ResourceState, name: Seq<char>) -> Option<ProcessModel> {
    if state == ResourceState::Running {
        Some(incus(seq!["exec"@, name, "--"@, "su"@, "-l"@]))
    } else {
        None
    }
}

/// An instance as a Resource.
pub open spec fn instance_resource(row: InstanceRowModel) -> ResourceModel {
    let state = instance_state(row.status);
    ResourceModel {
        id: row.name,
        name: row.name,
        secondary_text: None,
        status: Some(row.status),
        state: Some(state),
        fields: seq![
            ("Type"@, row.instance_type),
            ("Architecture"@, row.architecture),
            ("Location"@, row.location),
        ],
        snapshot_details: Seq::empty(),
        available_commands: possible_commands(state, LifecycleCommandPolicy::RestartAndResume),
        shell: shell_in_instance(state, row.name),
    }
}

/// The instances of a parsed listing.
pub open spec fn instance_resources(rows: Seq<InstanceRow>) -> Seq<ResourceModel> {
    rows.map_values(|row: InstanceRow| instance_resource(row@))
}

/// The one panel of Incus.
pub open spec fn incus_panels(instances: Seq<ResourceModel>) -> Seq<PanelModel> {
    seq![
        PanelModel {
            id: "instances"@,
            title: "Instances"@,
            detail_views: seq![
                provider_view("info"@, "Info"@),
                provider_view("config"@, "Config"@),
                provider_view("console-log"@, "Console Log"@),
            ],
            resources: instances,
        },
    ]
}

/// A failed listing, carrying help only where it applies.
///
/// An Incus that is gone or would not start cannot answer `incus list`, so
/// suggesting it would send the user nowhere.
pub open spec fn incus_listing_failure(error: ProcessErrorModel) -> Seq<char> {
    let message = cli_error_text("Incus"@, error, "Incus could not list instances"@);
    match error {
        ProcessErrorModel::Exited(_) => message + ". "@ + refresh_help(),
        _ => message,
    }
}

/// The word that the Incus CLI has for a Command.
pub open spec fn incus_verb(command: ResourceCommand) -> Seq<char> {
    match command {
        ResourceCommand::Start => "start"@,
        ResourceCommand::Stop => "stop"@,
        ResourceCommand::Restart => "restart"@,
        ResourceCommand::Resume => "unfreeze"@,
        ResourceCommand::Delete => "delete"@,
    }
}

/// The process behind a Command.
///
/// Incus deletes an instance plainly only from a stopped state; a running or
/// frozen one needs the force the user already confirmed.
pub open spec fn incus_command(
    target: TargetModel,
    command: ResourceCommand,
    state: Option<ResourceState>,
) -> Result<ProcessModel, Seq<char>> {
    if target.panel_id != "instances"@ {
        Err(
            "Incus has no "@ + resource_command_text(command) + " command for Resource Panel "@
                + target.panel_id,
        )
    } else {
        match state {
            None => Err(unknown_state_text("Incus"@, "instance"@, command, target.resource_id)),
            Some(state) => Ok(
                incus(
                    seq![incus_verb(command)] + (if command == ResourceCommand::Delete && state
                        != ResourceState::Stopped {
                        seq!["--force"@]
                    } else {
                        Seq::empty()
                    }) + seq![target.resource_id],
                ),
            ),
        }
    }
}

/// The arguments behind a Detail View that Incus declares.
pub open spec fn incus_view(view_id: Seq<char>, id: Seq<char>) -> Option<Seq<Seq<char>>> {
    if view_id == "info"@ {
        Some(seq!["info"@, id])
    } else if view_id == "config"@ {
        Some(seq!["config"@, "show"@, id])
    } else if view_id == "console-log"@ {
        Some(seq!["console"@, "--show-log"@, id])
    } else {
        None
    }
}

/// The process behind a Detail View.
pub open spec fn incus_detail(target: TargetModel, view_id: Seq<char>) -> Result<
    ProcessModel,
    Seq<char>,
> {
    if target.panel_id != "instances"@ {
        Err("Incus has no "@ + view_id + " view for Resource Panel "@ + target.panel_id)
    } else {
        match incus_view(view_id, target.resource_id) {
            Some(args) => Ok(incus(args)),
            None => Err(
                "Incus has no "@ + view_id + " view for instance "@ + target.resource_id,
            ),
        }
    }
}

/// What a Detail View shows.
pub open spec fn incus_details(
    target: TargetModel,
    view_id: Seq<char>,
    result: Result<OutputModel, ProcessErrorModel>,
) -> Result<Seq<Seq<char>>, Seq<char>> {
    match result {
        Ok(output) => Ok(output_lines(output.stdout)),
        Err(error) => Err(
            cli_error_text(
                "Incus"@,
                error,
                "Incus could not load "@ + view_id + " for instance "@ + target.resource_id,
            ),
        ),
    }
}

fn unreachable(message: &str, command: &str) -> (discovery: ProviderDiscovery)
    ensures
        discovery@ == unreachable_incus(message@, command@),
{
    let mut help = "Run `".to_owned();
    help.append(command);
    help.append("` to verify the selected Target Environment.");
    ProviderDiscovery::new(
        Provider::new(ProviderId::new("incus"), "Incus", None, None),
        Some(WorkspaceError::with_help(message, help.as_str())),
    )
}

pub fn incus_resource_state(status: &str) -> (reading: ResourceState)
    ensures
        reading == instance_state(status@),
{
    if eq_ignore_ascii_case(status, "running") {
        ResourceState::Running
    } else if eq_ignore_ascii_case(status, "stopped") {
        ResourceState::Stopped
    } else if eq_ignore_ascii_case(status, "frozen") {
        ResourceState::Paused
    } else if eq_ignore_ascii_case(status, "starting") || eq_ignore_ascii_case(status, "stopping")
        || eq_ignore_ascii_case(status, "freezing") || eq_ignore_ascii_case(status, "thawing") {
        ResourceState::Transitioning
    } else if eq_ignore_ascii_case(status, "error") {
        ResourceState::Broken
    } else {
        ResourceState::Unknown
    }
}

fn instance_shell(state: ResourceState, name: &str) -> (shell: Option<ResourceShellProcess>)
    ensures
        opt_view(shell) == shell_in_instance(state, name@),
{
    if state == ResourceState::Running {
        let process = ResourceShellProcess::new("incus", &["exec", name, "--", "su", "-l"]);
        assert(process@.args =~= seq!["exec"@, name@, "--"@, "su"@, "-l"@]);
        Some(process)
    } else {
        None
    }
}

fn resource_of_instance(row: &InstanceRow) -> (resource: Resource)
    ensures
        resource@ == instance_resource(row@),
{
    let state = incus_resource_state(row.status.as_str());
    let shell = instance_shell(state, row.name.as_str());
    let mut fields: Vec<(&'static str, String)> = Vec::new();
    fields.push(("Type", row.instance_type.clone()));
    fields.push(("Architecture", row.architecture.clone()));
    fields.push(("Location", row.location.clone()));
    let resource = Resource {
        id: ResourceId(row.name.clone()),
        name: row.name.clone(),
        secondary_text: None,
        status: Some(row.status.clone()),
        state: Some(state),
        fields,
        snapshot_details: Vec::new(),
        available_commands: lifecycle_commands(state, LifecycleCommandPolicy::RestartAndResume),
        shell,
    };
    assert(resource@ =~= instance_resource(row@));
    resource
}

impl IncusWorkspace {
    pub fn id(&self) -> (id: ProviderId)
        ensures
            id@ == "incus"@,
    {
        ProviderId::new("incus")
    }

    /// The process that tells the default remote.
    pub fn remote_process(&self) -> (process: ProcessSpec)
        ensures
            process@ == remote_query(),
    {
        let process = ProcessSpec::new("incus", &["remote", "get-default"]);
        assert(process@.args =~= seq!["remote"@, "get-default"@]);
        process
    }

    /// The process that tells the current project.
    pub fn project_process(&self) -> (process: ProcessSpec)
        ensures
            process@ == project_query(),
    {
        let process = ProcessSpec::new("incus", &["project", "get-current"]);
        assert(process@.args =~= seq!["project"@, "get-current"@]);
        process
    }

    /// What the answers say of Incus.
    pub fn discovered(
        &self,
        remote: Result<ProcessOutput, ProcessError>,
        project: Result<ProcessOutput, ProcessError>,
    ) -> (discovery: Option<ProviderDiscovery>)
        ensures
            opt_view(discovery) == incus_discovery(ending(remote), ending(project)),
    {
        let remote = match remote {
            Err(ProcessError::ExecutableNotFound) => return None,
            Err(error) => {
                let text = provider_cli_error(
                    "Incus",
                    &error,
                    "Incus could not report its default remote",
                );
                return Some(unreachable(text.as_str(), "incus remote get-default"));
            },
            Ok(output) => trim(output.stdout.as_str()),
        };
        let project = match project {
            Err(error) => {
                let text = provider_cli_error(
                    "Incus",
                    &error,
                    "Incus could not report the current project",
                );
                return Some(unreachable(text.as_str(), "incus project get-current"));
            },
            Ok(output) => trim(output.stdout.as_str()),
        };
        let mut target = remote;
        target.append(" / ");
        target.append(project.as_str());
        Some(
            ProviderDiscovery::new(
                Provider::new(
                    ProviderId::new("incus"),
                    "Incus",
                    Some(TargetEnvironment::new(target.as_str())),
                    None,
                ),
                None,
            ),
        )
    }

    /// The process that lists instances.
    pub fn listing_process(&self) -> (process: ProcessSpec)
        ensures
            process@ == instance_query(),
    {
        let process = ProcessSpec::new("incus", &["list", "--format=json"]);
        assert(process@.args =~= seq!["list"@, "--format=json"@]);
        process
    }

    /// Why instances could not be listed.
    pub fn listing_failure(&self, error: &ProcessError) -> (failure: WorkspaceError)
        ensures
            failure@ == incus_listing_failure(error@),
    {
        let message = provider_cli_error("Incus", error, "Incus could not list instances");
        match error {
            ProcessError::Exited(_) => WorkspaceError::with_help(
                message.as_str(),
                "Run `incus list` to verify access to the current Target Environment.",
            ),
            _ => WorkspaceError { message },
        }
    }

    /// The snapshot that a parsed listing makes up, or why it was malformed.
    pub fn refresh(&self, rows: &Result<Vec<InstanceRow>, String>) -> (result: Result<
        WorkspaceSnapshot,
        WorkspaceError,
    >)
        ensures
            snapshot_result(result) == (match rows {
                Ok(rows) => Ok::<Seq<PanelModel>, Seq<char>>(
                    incus_panels(instance_resources(rows@)),
                ),
                Err(error) => Err(error@),
            }),
    {
        let rows = match rows {
            Ok(rows) => rows,
            Err(error) => return Err(WorkspaceError::new(error.as_str())),
        };
        let ghost all = instance_resources(rows@);
        let mut resources: Vec<Resource> = Vec::new();
        let mut i: usize = 0;
        assert(views(resources@) =~= all.take(0));
        while i < rows.len()
            invariant
                i <= rows.len(),
                all == instance_resources(rows@),
                views(resources@) == all.take(i as int),
            decreases rows.len() - i,
        {
            let ghost before = resources@;
            let resource = resource_of_instance(&rows[i]);
            resources.push(resource);
            proof {
                assert(all[i as int] == resource@);
                assert(views(resources@) =~= views(before).push(resource@));
                assert(all.take(i + 1) =~= all.take(i as int).push(all[i as int]));
            }
            i = i + 1;
        }
        assert(all.take(i as int) =~= all);
        let ghost shown = incus_panels(all);
        let mut detail_views: Vec<DetailView> = Vec::new();
        detail_views.push(DetailView::new("info", "Info"));
        detail_views.push(DetailView::new("config", "Config"));
        detail_views.push(DetailView::new("console-log", "Console Log"));
        assert(views(detail_views@) =~= shown[0].detail_views);
        let mut panels: Vec<ResourcePanel> = Vec::new();
        panels.push(
            ResourcePanel {
                id: ResourcePanelId::new("instances"),
                title: "Instances".to_owned(),
                detail_views,
                resources,
            },
        );
        assert(views(panels@) =~= shown);
        Ok(WorkspaceSnapshot { panels })
    }

    /// The process behind a Command.
    pub fn execute_command(
        &self,
        target: &ResourceTarget,
        command: ResourceCommand,
        state: Option<ResourceState>,
    ) -> (result: Result<ProcessSpec, WorkspaceError>)
        ensures
            process_result(result) == incus_command(target@, command, state),
    {
        if !same_text(target.panel_id().as_str(), "instances") {
            let mut text = "Incus has no ".to_owned();
            text.append(command.as_str());
            text.append(" command for Resource Panel ");
            text.append(target.panel_id().as_str());
            return Err(WorkspaceError { message: text });
        }
        let state = match require_resource_state(
            state,
            "Incus",
            "instance",
            command,
            target.resource_id(),
        ) {
            Ok(state) => state,
            Err(error) => return Err(error),
        };
        let verb = match command {
            ResourceCommand::Start => "start",
            ResourceCommand::Stop => "stop",
            ResourceCommand::Restart => "restart",
            ResourceCommand::Resume => "unfreeze",
            ResourceCommand::Delete => "delete",
        };
        let id = target.resource_id().as_str();
        let process = if command == ResourceCommand::Delete && state != ResourceState::Stopped {
            ProcessSpec::new("incus", &[verb, "--force", id])
        } else {
            ProcessSpec::new("incus", &[verb, id])
        };
        assert(process@.args =~= incus_command(target@, command, Some(state))->Ok_0.args);
        Ok(process)
    }

    /// How a Command ended.
    pub fn command_ended(
        &self,
        target: &ResourceTarget,
        command: ResourceCommand,
        result: Result<ProcessOutput, ProcessError>,
    ) -> (ended: Result<(), WorkspaceError>)
        ensures
            ended is Ok <==> result is Ok,
            ended matches Err(error) ==> (result matches Err(cause) && error@ == cli_error_text(
                "Incus"@,
                cause@,
                "Incus could not "@ + resource_command_text(command) + " instance "@
                    + target@.resource_id,
            )),
    {
        match result {
            Ok(_) => Ok(()),
            Err(error) => {
                let mut fallback = "Incus could not ".to_owned();
                fallback.append(command.as_str());
                fallback.append(" instance ");
                fallback.append(target.resource_id().as_str());
                Err(
                    WorkspaceError {
                        message: provider_cli_error("Incus", &error, fallback.as_str()),
                    },
                )
            },
        }
    }

    /// The process behind a Detail View.
    pub fn load_details(&self, target: &ResourceTarget, view_id: &DetailViewId) -> (result: Result<
        ProcessSpec,
        WorkspaceError,
    >)
        ensures
            process_result(result) == incus_detail(target@, view_id@),
    {
        let id = target.resource_id().as_str();
        let view = view_id.as_str();
        if !same_text(target.panel_id().as_str(), "instances") {
            let mut text = "Incus has no ".to_owned();
            text.append(view);
            text.append(" view for Resource Panel ");
            text.append(target.panel_id().as_str());
            return Err(WorkspaceError { message: text });
        }
        if same_text(view, "info") {
            let process = ProcessSpec::new("incus", &["info", id]);
            assert(process@.args =~= incus_view(view@, id@)->0);
            return Ok(process);
        }
        if same_text(view, "config") {
            let process = ProcessSpec::new("incus", &["config", "show", id]);
            assert(process@.args =~= incus_view(view@, id@)->0);
            return Ok(process);
        }
        if same_text(view, "console-log") {
            let process = ProcessSpec::new("incus", &["console", "--show-log", id]);
            assert(process@.args =~= incus_view(view@, id@)->0);
            return Ok(process);
        }
        let mut text = "Incus has no ".to_owned();
        text.append(view);
        text.append(" view for instance ");
        text.append(id);
        Err(WorkspaceError { message: text })
    }

    /// What a Detail View shows.
    pub fn details_loaded(
        &self,
        target: &ResourceTarget,
        view_id: &DetailViewId,
        result: Result<ProcessOutput, ProcessError>,
    ) -> (details: Result<ResourceDetails, WorkspaceError>)
        ensures
            details_result(details) == incus_details(target@, view_id@, ending(result)),
    {
        match result {
            Ok(output) => Ok(ResourceDetails::from_output(output.stdout.as_str())),
            Err(error) => {
                let mut fallback = "Incus could not load ".to_owned();
                fallback.append(view_id.as_str());
                fallback.append(" for instance ");
                fallback.append(target.resource_id().as_str());
                Err(
                    WorkspaceError {
                        message: provider_cli_error("Incus", &error, fallback.as_str()),
                    },
                )
            },
        }
    }
}

/// Only a stopped instance is deleted without force, so an unrecognised status
/// can never masquerade as a stopped one.
pub proof fn law_only_a_stopped_instance_is_deleted_plainly(
    target: TargetModel,
    state: ResourceState,
)
    requires
        target.panel_id == "instances"@,
    ensures
        incus_command(target, ResourceCommand::Delete, Some(state)) == Ok::<
            ProcessModel,
            Seq<char>,
        >(
            incus(
                if state == ResourceState::Stopped {
                    seq!["delete"@, target.resource_id]
                } else {
                    seq!["delete"@, "--force"@, target.resource_id]
                },
            ),
        ),
{
    let args = incus_command(target, ResourceCommand::Delete, Some(state))->Ok_0.args;
    if state == ResourceState::Stopped {
        assert(args =~= seq!["delete"@, target.resource_id]);
    } else {
        assert(args =~= seq!["delete"@, "--force"@, target.resource_id]);
    }
}

/// A shell is offered inside running instances, and only there.
pub proof fn law_only_running_instances_offer_a_shell(row: InstanceRowModel)
    ensures
        instance_resource(row).shell is Some <==> instance_state(row.status)
            == ResourceState::Running,
{
}

} // verus!
