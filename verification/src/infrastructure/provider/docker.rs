//! Docker: its containers and images.

use vstd::prelude::*;
use vstd::string::*;

use super::{
    cli_error_text, provider_cli_error, require_resource_state, unknown_state_text, DiscoveryModel,
    ProviderDiscovery,
};
use crate::application::command::{resource_command_text, ResourceCommand};
use crate::application::provider::{
    lifecycle_commands, output_lines, possible_commands, DetailView, DetailViewModel,
    DetailViewSource, LifecycleCommandPolicy, PanelModel, Resource, ResourceDetails, ResourceModel,
    ResourcePanel, WorkspaceError, WorkspaceSnapshot,
};
use crate::application::shell::{ProcessModel, ResourceShellProcess};
use crate::domain::{
    DetailViewId, Provider, ProviderId, ProviderModel, ResourceId, ResourcePanelId, ResourceState,
    ResourceTarget, TargetEnvironment, TargetModel,
};
use crate::infrastructure::process::{
    ending, failure_message, OutputModel, ProcessError, ProcessErrorModel, ProcessOutput,
    ProcessSpec,
};
use crate::text::{
    blank, eq_ignore_ascii_case, is_blank, lines, lines_of, opt_view, same_ignoring_case,
    same_text, trim, trimmed, views,
};

verus! {

/// The Docker Provider Workspace.
pub struct DockerWorkspace;

/// One container, as `docker container ls` lists it.
#[derive(Debug, PartialEq, Eq)]
pub struct ContainerRow {
    pub id: String,
    pub image: String,
    pub names: String,
    pub state: String,
    pub status: String,
}

/// One image, as `docker image ls` lists it.
#[derive(Debug, PartialEq, Eq)]
pub struct ImageRow {
    pub id: String,
    pub repository: String,
    pub tag: String,
    pub size: String,
}

#[verifier::ext_equal]
pub struct ContainerRowModel {
    pub id: Seq<char>,
    pub image: Seq<char>,
    pub names: Seq<char>,
    pub state: Seq<char>,
    pub status: Seq<char>,
}

#[verifier::ext_equal]
pub struct ImageRowModel {
    pub id: Seq<char>,
    pub repository: Seq<char>,
    pub tag: Seq<char>,
    pub size: Seq<char>,
}

impl View for ContainerRow {
    type V = ContainerRowModel;

    open spec fn view(&self) -> ContainerRowModel {
        ContainerRowModel {
            id: self.id@,
            image: self.image@,
            names: self.names@,
            state: self.state@,
            status: self.status@,
        }
    }
}

impl View for ImageRow {
    type V = ImageRowModel;

    open spec fn view(&self) -> ImageRowModel {
        ImageRowModel {
            id: self.id@,
            repository: self.repository@,
            tag: self.tag@,
            size: self.size@,
        }
    }
}

pub open spec fn docker(args: Seq<Seq<char>>) -> ProcessModel {
    ProcessModel { program: "docker"@, args }
}

/// The process that tells where Docker's work happens.
pub open spec fn context_query() -> ProcessModel {
    docker(seq!["context"@, "show"@])
}

/// The process that lists containers.
pub open spec fn container_query() -> ProcessModel {
    docker(seq!["container"@, "ls"@, "--all"@, "--no-trunc"@, "--format"@, "{{json .}}"@])
}

/// The process that lists images.
pub open spec fn image_query() -> ProcessModel {
    docker(seq!["image"@, "ls"@, "--no-trunc"@, "--format"@, "{{json .}}"@])
}

/// What a user can run to check a container listing that failed.
pub open spec fn container_help() -> Seq<char> {
    "Run `docker container ls --all` to verify access to the current Target Environment."@
}

/// What a user can run to check an image listing that failed.
pub open spec fn image_help() -> Seq<char> {
    "Run `docker image ls` to verify access to the current Target Environment."@
}

/// Docker without a Target Environment, and why.
pub open spec fn unreachable_docker(message: Seq<char>) -> DiscoveryModel {
    DiscoveryModel {
        provider: ProviderModel {
            id: "docker"@,
            name: "Docker"@,
            target_environment: None,
            version: None,
        },
        error: Some(
            message + ". "@
                + "Run `docker context show` to verify the selected context and ensure Docker is running."@,
        ),
    }
}

/// What the answer to `docker context show` says of Docker. An absent CLI is no
/// Provider at all.
pub open spec fn docker_discovery(result: Result<OutputModel, ProcessErrorModel>) -> Option<
    DiscoveryModel,
> {
    match result {
        Err(ProcessErrorModel::ExecutableNotFound) => None,
        Err(ProcessErrorModel::SpawnFailed(reason)) => Some(
            unreachable_docker("Docker CLI could not be started: "@ + reason),
        ),
        Err(ProcessErrorModel::Exited(failure)) => Some(
            unreachable_docker(
                failure_message(failure, "Docker could not report its current context"@),
            ),
        ),
        Ok(output) => Some(
            DiscoveryModel {
                provider: ProviderModel {
                    id: "docker"@,
                    name: "Docker"@,
                    target_environment: Some(trimmed(output.stdout)),
                    version: None,
                },
                error: None,
            },
        ),
    }
}

/// The shared reading of a container's `State`.
///
/// Docker's own set is `created`, `running`, `paused`, `restarting`,
/// `removing`, `exited`, and `dead`; anything else is deliberately left
/// `Unknown` rather than assumed to be stopped.
pub open spec fn container_state(state: Seq<char>) -> ResourceState {
    if same_ignoring_case(state, "running"@) {
        ResourceState::Running
    } else if same_ignoring_case(state, "exited"@) || same_ignoring_case(state, "created"@) {
        ResourceState::Stopped
    } else if same_ignoring_case(state, "paused"@) {
        ResourceState::Paused
    } else if same_ignoring_case(state, "restarting"@) || same_ignoring_case(
        state,
        "removing"@,
    ) {
        ResourceState::Transitioning
    } else if same_ignoring_case(state, "dead"@) {
        ResourceState::Broken
    } else {
        ResourceState::Unknown
    }
}

/// The shell inside a container.
///
/// `docker exec` attaches only to a running container, so every other state
/// offers none. Plain `/bin/sh` is the shell that exists wherever any shell
/// does, including the minimal images Docker containers are so often built
/// from; reaching for a login shell instead would fail on exactly those.
pub open spec fn shell_in_container(state: ResourceState, id: Seq<char>) -> Option<ProcessModel> {
    if state == ResourceState::Running {
        Some(docker(seq!["exec"@, "-it"@, id, "/bin/sh"@]))
    } else {
        None
    }
}

/// A container as a Resource.
pub open spec fn container_resource(row: ContainerRowModel) -> ResourceModel {
    let state = container_state(row.state);
    ResourceModel {
        id: row.id,
        name: row.names,
        secondary_text: None,
        status: Some(row.state),
        state: Some(state),
        fields: seq![("Image"@, row.image), ("Status"@, row.status)],
        snapshot_details: Seq::empty(),
        available_commands: possible_commands(state, LifecycleCommandPolicy::RestartAndResume),
        shell: shell_in_container(state, row.id),
    }
}

/// What an image is known by.
///
/// One image carries one digest per tag it was given, so the digest repeats
/// down the listing and cannot identify a row. `repository:tag` is what Docker
/// itself accepts and what it holds unique, so it identifies the Resource; an
/// untagged image has only its digest to be known by.
pub open spec fn image_name(row: ImageRowModel) -> Seq<char> {
    if row.repository == "<none>"@ || row.tag == "<none>"@ {
        row.id
    } else {
        row.repository + ":"@ + row.tag
    }
}

/// An image as a Resource.
pub open spec fn image_resource(row: ImageRowModel) -> ResourceModel {
    ResourceModel {
        id: image_name(row),
        name: image_name(row),
        secondary_text: None,
        status: None,
        state: None,
        fields: seq![
            ("Repository"@, row.repository),
            ("Tag"@, row.tag),
            ("Identity"@, row.id),
            ("Size"@, row.size),
        ],
        snapshot_details: Seq::empty(),
        available_commands: Seq::empty(),
        shell: None,
    }
}

/// The lines of a listing that hold a row.
pub open spec fn listed_rows(all: Seq<Seq<char>>) -> Seq<Seq<char>>
    decreases all.len(),
{
    if all.len() == 0 {
        Seq::empty()
    } else if is_blank(all.last()) {
        listed_rows(all.drop_last())
    } else {
        listed_rows(all.drop_last()).push(all.last())
    }
}

/// A parsed listing as its Resources, or why its first malformed row failed.
pub open spec fn listing<R, M>(
    rows: Seq<Result<R, String>>,
    resource: spec_fn(R) -> M,
    complaint: Seq<char>,
    help: Seq<char>,
) -> Result<Seq<M>, Seq<char>>
    decreases rows.len(),
{
    if rows.len() == 0 {
        Ok(Seq::empty())
    } else {
        match listing(rows.drop_last(), resource, complaint, help) {
            Err(message) => Err(message),
            Ok(earlier) => match rows.last() {
                Ok(row) => Ok(earlier.push(resource(row))),
                Err(error) => Err(complaint + error@ + ". "@ + help),
            },
        }
    }
}

/// The containers of a parsed listing.
pub open spec fn container_listing(rows: Seq<Result<ContainerRow, String>>) -> Result<
    Seq<ResourceModel>,
    Seq<char>,
> {
    listing(
        rows,
        |row: ContainerRow| container_resource(row@),
        "Docker returned malformed container data: "@,
        container_help(),
    )
}

/// The images of a parsed listing.
pub open spec fn image_listing(rows: Seq<Result<ImageRow, String>>) -> Result<
    Seq<ResourceModel>,
    Seq<char>,
> {
    listing(
        rows,
        |row: ImageRow| image_resource(row@),
        "Docker returned malformed image data: "@,
        image_help(),
    )
}

pub open spec fn provider_view(id: Seq<char>, title: Seq<char>) -> DetailViewModel {
    DetailViewModel { id, title, source: DetailViewSource::Provider }
}

/// The panels that Docker's listings make up.
pub open spec fn docker_panels(
    containers: Seq<ResourceModel>,
    images: Seq<ResourceModel>,
) -> Seq<PanelModel> {
    seq![
        PanelModel {
            id: "containers"@,
            title: "Containers"@,
            detail_views: seq![
                provider_view("logs"@, "Logs"@),
                provider_view("stats"@, "Stats"@),
                provider_view("inspect"@, "Inspect"@),
            ],
            resources: containers,
        },
        PanelModel {
            id: "images"@,
            title: "Images"@,
            detail_views: seq![provider_view("inspect"@, "Inspect"@)],
            resources: images,
        },
    ]
}

/// The snapshot that two parsed listings make up. A malformed container is
/// reported before a malformed image.
pub open spec fn docker_snapshot(
    containers: Seq<Result<ContainerRow, String>>,
    images: Seq<Result<ImageRow, String>>,
) -> Result<Seq<PanelModel>, Seq<char>> {
    match container_listing(containers) {
        Err(message) => Err(message),
        Ok(containers) => match image_listing(images) {
            Err(message) => Err(message),
            Ok(images) => Ok(docker_panels(containers, images)),
        },
    }
}

/// A failed listing, carrying help only where it applies.
///
/// A Docker that is gone or would not start cannot answer another listing, so
/// suggesting one would send the user nowhere.
pub open spec fn listing_failure(
    error: ProcessErrorModel,
    fallback: Seq<char>,
    help: Seq<char>,
) -> Seq<char> {
    match error {
        ProcessErrorModel::Exited(_) => cli_error_text("Docker"@, error, fallback) + ". "@ + help,
        _ => cli_error_text("Docker"@, error, fallback),
    }
}

/// The word that Docker's CLI has for a Command.
pub open spec fn docker_verb(command: ResourceCommand) -> Seq<char> {
    match command {
        ResourceCommand::Start => "start"@,
        ResourceCommand::Stop => "stop"@,
        ResourceCommand::Restart => "restart"@,
        ResourceCommand::Resume => "unpause"@,
        ResourceCommand::Delete => "rm"@,
    }
}

/// The process behind a Command.
///
/// Docker removes a container plainly only from a stopped state; a running,
/// paused, or restarting one needs the force the user already confirmed.
pub open spec fn docker_command(
    target: TargetModel,
    command: ResourceCommand,
    state: Option<ResourceState>,
) -> Result<ProcessModel, Seq<char>> {
    if target.panel_id != "containers"@ {
        Err(
            "Docker has no "@ + resource_command_text(command) + " command for Resource Panel "@
                + target.panel_id,
        )
    } else {
        match state {
            None => Err(
                unknown_state_text("Docker"@, "container"@, command, target.resource_id),
            ),
            Some(state) => Ok(
                docker(
                    seq!["container"@, docker_verb(command)] + (if command
                        == ResourceCommand::Delete && state != ResourceState::Stopped {
                        seq!["--force"@]
                    } else {
                        Seq::empty()
                    }) + seq![target.resource_id],
                ),
            ),
        }
    }
}

/// What a Detail View is a view of.
pub open spec fn docker_kind(target: TargetModel, view_id: Seq<char>) -> Seq<char> {
    if target.panel_id == "containers"@ {
        "container"@
    } else if target.panel_id == "images"@ && view_id == "inspect"@ {
        "image"@
    } else {
        target.panel_id
    }
}

/// The arguments behind a Detail View that Docker declares.
pub open spec fn docker_view(target: TargetModel, view_id: Seq<char>) -> Option<Seq<Seq<char>>> {
    if target.panel_id == "containers"@ {
        if view_id == "logs"@ {
            Some(seq!["container"@, "logs"@, "--tail"@, "200"@, target.resource_id])
        } else if view_id == "stats"@ {
            Some(seq!["container"@, "stats"@, "--no-stream"@, target.resource_id])
        } else if view_id == "inspect"@ {
            Some(seq!["container"@, "inspect"@, target.resource_id])
        } else {
            None
        }
    } else if target.panel_id == "images"@ && view_id == "inspect"@ {
        Some(seq!["image"@, "inspect"@, target.resource_id])
    } else {
        None
    }
}

/// The process behind a Detail View.
pub open spec fn docker_detail(target: TargetModel, view_id: Seq<char>) -> Result<
    ProcessModel,
    Seq<char>,
> {
    match docker_view(target, view_id) {
        Some(args) => Ok(docker(args)),
        None => Err(
            "Docker has no "@ + view_id + " view for "@ + docker_kind(target, view_id) + " "@
                + target.resource_id,
        ),
    }
}

/// What a Detail View shows. A container writes wherever it likes, so both
/// streams are its output; only a failed process means Docker itself failed.
pub open spec fn docker_details(
    target: TargetModel,
    view_id: Seq<char>,
    result: Result<OutputModel, ProcessErrorModel>,
) -> Result<Seq<Seq<char>>, Seq<char>> {
    match result {
        Ok(output) => Ok(output_lines(output.stdout) + output_lines(output.stderr)),
        Err(error) => Err(
            cli_error_text(
                "Docker"@,
                error,
                "Docker could not load "@ + view_id + " for "@ + docker_kind(target, view_id)
                    + " "@ + target.resource_id,
            ),
        ),
    }
}

fn unreachable(message: &str) -> (discovery: ProviderDiscovery)
    ensures
        discovery@ == unreachable_docker(message@),
{
    ProviderDiscovery::new(
        Provider::new(ProviderId::new("docker"), "Docker", None, None),
        Some(
            WorkspaceError::with_help(
                message,
                "Run `docker context show` to verify the selected context and ensure Docker is running.",
            ),
        ),
    )
}

pub fn docker_resource_state(state: &str) -> (reading: ResourceState)
    ensures
        reading == container_state(state@),
{
    if eq_ignore_ascii_case(state, "running") {
        ResourceState::Running
    } else if eq_ignore_ascii_case(state, "exited") || eq_ignore_ascii_case(state, "created") {
        ResourceState::Stopped
    } else if eq_ignore_ascii_case(state, "paused") {
        ResourceState::Paused
    } else if eq_ignore_ascii_case(state, "restarting") || eq_ignore_ascii_case(
        state,
        "removing",
    ) {
        ResourceState::Transitioning
    } else if eq_ignore_ascii_case(state, "dead") {
        ResourceState::Broken
    } else {
        ResourceState::Unknown
    }
}

fn container_shell(state: ResourceState, id: &str) -> (shell: Option<ResourceShellProcess>)
    ensures
        opt_view(shell) == shell_in_container(state, id@),
{
    if state == ResourceState::Running {
        let process = ResourceShellProcess::new("docker", &["exec", "-it", id, "/bin/sh"]);
        assert(process@.args =~= seq!["exec"@, "-it"@, id@, "/bin/sh"@]);
        Some(process)
    } else {
        None
    }
}

fn resource_of_container(row: &ContainerRow) -> (resource: Resource)
    ensures
        resource@ == container_resource(row@),
{
    let state = docker_resource_state(row.state.as_str());
    let shell = container_shell(state, row.id.as_str());
    let mut fields: Vec<(&'static str, String)> = Vec::new();
    fields.push(("Image", row.image.clone()));
    fields.push(("Status", row.status.clone()));
    let resource = Resource {
        id: ResourceId(row.id.clone()),
        name: row.names.clone(),
        secondary_text: None,
        status: Some(row.state.clone()),
        state: Some(state),
        fields,
        snapshot_details: Vec::new(),
        available_commands: lifecycle_commands(state, LifecycleCommandPolicy::RestartAndResume),
        shell,
    };
    assert(resource@ =~= container_resource(row@));
    resource
}

fn resource_of_image(row: &ImageRow) -> (resource: Resource)
    ensures
        resource@ == image_resource(row@),
{
    let name = if same_text(row.repository.as_str(), "<none>") || same_text(
        row.tag.as_str(),
        "<none>",
    ) {
        row.id.clone()
    } else {
        let mut name = row.repository.clone();
        name.append(":");
        name.append(row.tag.as_str());
        name
    };
    let mut fields: Vec<(&'static str, String)> = Vec::new();
    fields.push(("Repository", row.repository.clone()));
    fields.push(("Tag", row.tag.clone()));
    fields.push(("Identity", row.id.clone()));
    fields.push(("Size", row.size.clone()));
    let none: &'static [ResourceCommand] = &[];
    let resource = Resource {
        id: ResourceId(name.clone()),
        name,
        secondary_text: None,
        status: None,
        state: None,
        fields,
        snapshot_details: Vec::new(),
        available_commands: none,
        shell: None,
    };
    assert(resource@ =~= image_resource(row@));
    resource
}

fn malformed(complaint: &str, error: &String, help: &str) -> (failure: WorkspaceError)
    ensures
        failure@ == complaint@ + error@ + ". "@ + help@,
{
    let mut text = complaint.to_owned();
    text.append(error.as_str());
    WorkspaceError::with_help(text.as_str(), help)
}

pub open spec fn resources_result(result: Result<Vec<Resource>, WorkspaceError>) -> Result<
    Seq<ResourceModel>,
    Seq<char>,
> {
    match result {
        Ok(resources) => Ok(views(resources@)),
        Err(error) => Err(error@),
    }
}

proof fn lemma_listing_stops<R, M>(
    rows: Seq<Result<R, String>>,
    resource: spec_fn(R) -> M,
    complaint: Seq<char>,
    help: Seq<char>,
    count: int,
)
    requires
        0 <= count <= rows.len(),
        listing(rows.take(count), resource, complaint, help) is Err,
    ensures
        listing(rows, resource, complaint, help) == listing(
            rows.take(count),
            resource,
            complaint,
            help,
        ),
    decreases rows.len() - count,
{
    if count < rows.len() {
        assert(rows.take(count + 1).drop_last() =~= rows.take(count));
        lemma_listing_stops(rows, resource, complaint, help, count + 1);
    } else {
        assert(rows.take(count) =~= rows);
    }
}

fn read_containers(rows: &Vec<Result<ContainerRow, String>>) -> (result: Result<
    Vec<Resource>,
    WorkspaceError,
>)
    ensures
        resources_result(result) == container_listing(rows@),
{
    let ghost reading = |row: ContainerRow| container_resource(row@);
    let ghost complaint = "Docker returned malformed container data: "@;
    let mut resources: Vec<Resource> = Vec::new();
    let mut i: usize = 0;
    assert(views(resources@) =~= Seq::<ResourceModel>::empty());
    while i < rows.len()
        invariant
            i <= rows.len(),
            reading == |row: ContainerRow| container_resource(row@),
            complaint == "Docker returned malformed container data: "@,
            listing(rows@.take(i as int), reading, complaint, container_help()) == Ok::<
                Seq<ResourceModel>,
                Seq<char>,
            >(views(resources@)),
            container_listing(rows@) == listing(rows@, reading, complaint, container_help()),
        decreases rows.len() - i,
    {
        proof {
            assert(rows@.take(i + 1).drop_last() =~= rows@.take(i as int));
            assert(rows@.take(i + 1).last() == rows@[i as int]);
        }
        match &rows[i] {
            Ok(row) => {
                let ghost before = resources@;
                let resource = resource_of_container(row);
                resources.push(resource);
                assert(views(resources@) =~= views(before).push(resource@));
            },
            Err(error) => {
                proof {
                    lemma_listing_stops(rows@, reading, complaint, container_help(), i + 1);
                }
                return Err(
                    malformed(
                        "Docker returned malformed container data: ",
                        error,
                        "Run `docker container ls --all` to verify access to the current Target Environment.",
                    ),
                );
            },
        }
        i = i + 1;
    }
    assert(rows@.take(i as int) =~= rows@);
    Ok(resources)
}

fn read_images(rows: &Vec<Result<ImageRow, String>>) -> (result: Result<
    Vec<Resource>,
    WorkspaceError,
>)
    ensures
        resources_result(result) == image_listing(rows@),
{
    let ghost reading = |row: ImageRow| image_resource(row@);
    let ghost complaint = "Docker returned malformed image data: "@;
    let mut resources: Vec<Resource> = Vec::new();
    let mut i: usize = 0;
    assert(views(resources@) =~= Seq::<ResourceModel>::empty());
    while i < rows.len()
        invariant
            i <= rows.len(),
            reading == |row: ImageRow| image_resource(row@),
            complaint == "Docker returned malformed image data: "@,
            listing(rows@.take(i as int), reading, complaint, image_help()) == Ok::<
                Seq<ResourceModel>,
                Seq<char>,
            >(views(resources@)),
            image_listing(rows@) == listing(rows@, reading, complaint, image_help()),
        decreases rows.len() - i,
    {
        proof {
            assert(rows@.take(i + 1).drop_last() =~= rows@.take(i as int));
            assert(rows@.take(i + 1).last() == rows@[i as int]);
        }
        match &rows[i] {
            Ok(row) => {
                let ghost before = resources@;
                let resource = resource_of_image(row);
                resources.push(resource);
                assert(views(resources@) =~= views(before).push(resource@));
            },
            Err(error) => {
                proof {
                    lemma_listing_stops(rows@, reading, complaint, image_help(), i + 1);
                }
                return Err(
                    malformed(
                        "Docker returned malformed image data: ",
                        error,
                        "Run `docker image ls` to verify access to the current Target Environment.",
                    ),
                );
            },
        }
        i = i + 1;
    }
    assert(rows@.take(i as int) =~= rows@);
    Ok(resources)
}

/// A failed listing, carrying help only where it applies.
fn refresh_failure(error: &ProcessError, fallback: &str, help: &str) -> (failure: WorkspaceError)
    ensures
        failure@ == listing_failure(error@, fallback@, help@),
{
    let message = provider_cli_error("Docker", error, fallback);
    match error {
        ProcessError::Exited(_) => WorkspaceError::with_help(message.as_str(), help),
        _ => WorkspaceError { message },
    }
}

pub open spec fn snapshot_result(result: Result<WorkspaceSnapshot, WorkspaceError>) -> Result<
    Seq<PanelModel>,
    Seq<char>,
> {
    match result {
        Ok(snapshot) => Ok(snapshot@),
        Err(error) => Err(error@),
    }
}

pub open spec fn process_result(result: Result<ProcessSpec, WorkspaceError>) -> Result<
    ProcessModel,
    Seq<char>,
> {
    match result {
        Ok(process) => Ok(process@),
        Err(error) => Err(error@),
    }
}

pub open spec fn details_result(result: Result<ResourceDetails, WorkspaceError>) -> Result<
    Seq<Seq<char>>,
    Seq<char>,
> {
    match result {
        Ok(details) => Ok(details@),
        Err(error) => Err(error@),
    }
}

/// The rows of a listing, one text each, without the blank lines between them.
pub fn listing_rows(stdout: &str) -> (rows: Vec<String>)
    ensures
        views(rows@) == listed_rows(lines_of(stdout@)),
{
    let all = lines(stdout);
    let ghost texts = views(all@);
    let mut rows: Vec<String> = Vec::new();
    let mut i: usize = 0;
    assert(views(rows@) =~= Seq::<Seq<char>>::empty());
    while i < all.len()
        invariant
            i <= all.len(),
            texts == views(all@),
            views(rows@) == listed_rows(texts.take(i as int)),
        decreases all.len() - i,
    {
        proof {
            assert(texts.take(i + 1).drop_last() =~= texts.take(i as int));
            assert(texts.take(i + 1).last() == all@[i as int]@);
        }
        if !blank(all[i].as_str()) {
            let ghost before = rows@;
            rows.push(all[i].clone());
            assert(views(rows@) =~= views(before).push(all@[i as int]@));
        }
        i = i + 1;
    }
    assert(texts.take(i as int) =~= texts);
    rows
}

impl DockerWorkspace {
    pub fn id(&self) -> (id: ProviderId)
        ensures
            id@ == "docker"@,
    {
        ProviderId::new("docker")
    }

    /// The process that tells where Docker's work happens.
    pub fn discovery_process(&self) -> (process: ProcessSpec)
        ensures
            process@ == context_query(),
    {
        let process = ProcessSpec::new("docker", &["context", "show"]);
        assert(process@.args =~= seq!["context"@, "show"@]);
        process
    }

    /// What the answer says of Docker.
    pub fn discovered(&self, result: Result<ProcessOutput, ProcessError>) -> (discovery: Option<
        ProviderDiscovery,
    >)
        ensures
            opt_view(discovery) == docker_discovery(ending(result)),
    {
        match result {
            Err(ProcessError::ExecutableNotFound) => None,
            Err(ProcessError::SpawnFailed(reason)) => {
                let mut text = "Docker CLI could not be started: ".to_owned();
                text.append(reason.as_str());
                Some(unreachable(text.as_str()))
            },
            Err(ProcessError::Exited(failure)) => {
                let text = failure.message_or("Docker could not report its current context");
                Some(unreachable(text.as_str()))
            },
            Ok(output) => {
                let target = trim(output.stdout.as_str());
                Some(
                    ProviderDiscovery::new(
                        Provider::new(
                            ProviderId::new("docker"),
                            "Docker",
                            Some(TargetEnvironment::new(target.as_str())),
                            None,
                        ),
                        None,
                    ),
                )
            },
        }
    }

    /// The process that lists containers.
    pub fn container_process(&self) -> (process: ProcessSpec)
        ensures
            process@ == container_query(),
    {
        let process = ProcessSpec::new(
            "docker",
            &["container", "ls", "--all", "--no-trunc", "--format", "{{json .}}"],
        );
        assert(process@.args =~= seq![
            "container"@,
            "ls"@,
            "--all"@,
            "--no-trunc"@,
            "--format"@,
            "{{json .}}"@,
        ]);
        process
    }

    /// The process that lists images.
    pub fn image_process(&self) -> (process: ProcessSpec)
        ensures
            process@ == image_query(),
    {
        let process = ProcessSpec::new(
            "docker",
            &["image", "ls", "--no-trunc", "--format", "{{json .}}"],
        );
        assert(process@.args =~= seq![
            "image"@,
            "ls"@,
            "--no-trunc"@,
            "--format"@,
            "{{json .}}"@,
        ]);
        process
    }

    /// Why containers could not be listed.
    pub fn container_failure(&self, error: &ProcessError) -> (failure: WorkspaceError)
        ensures
            failure@ == listing_failure(
                error@,
                "Docker could not list containers"@,
                container_help(),
            ),
    {
        refresh_failure(
            error,
            "Docker could not list containers",
            "Run `docker container ls --all` to verify access to the current Target Environment.",
        )
    }

    /// Why images could not be listed.
    pub fn image_failure(&self, error: &ProcessError) -> (failure: WorkspaceError)
        ensures
            failure@ == listing_failure(error@, "Docker could not list images"@, image_help()),
    {
        refresh_failure(
            error,
            "Docker could not list images",
            "Run `docker image ls` to verify access to the current Target Environment.",
        )
    }

    /// The snapshot that two parsed listings make up.
    pub fn refresh(
        &self,
        containers: &Vec<Result<ContainerRow, String>>,
        images: &Vec<Result<ImageRow, String>>,
    ) -> (result: Result<WorkspaceSnapshot, WorkspaceError>)
        ensures
            snapshot_result(result) == docker_snapshot(containers@, images@),
    {
        let containers = match read_containers(containers) {
            Ok(containers) => containers,
            Err(error) => return Err(error),
        };
        let images = match read_images(images) {
            Ok(images) => images,
            Err(error) => return Err(error),
        };
        let ghost shown = docker_panels(views(containers@), views(images@));
        let mut container_views: Vec<DetailView> = Vec::new();
        container_views.push(DetailView::new("logs", "Logs"));
        container_views.push(DetailView::new("stats", "Stats"));
        container_views.push(DetailView::new("inspect", "Inspect"));
        assert(views(container_views@) =~= shown[0].detail_views);
        let mut image_views: Vec<DetailView> = Vec::new();
        image_views.push(DetailView::new("inspect", "Inspect"));
        assert(views(image_views@) =~= shown[1].detail_views);
        let mut panels: Vec<ResourcePanel> = Vec::new();
        panels.push(
            ResourcePanel {
                id: ResourcePanelId::new("containers"),
                title: "Containers".to_owned(),
                detail_views: container_views,
                resources: containers,
            },
        );
        panels.push(
            ResourcePanel {
                id: ResourcePanelId::new("images"),
                title: "Images".to_owned(),
                detail_views: image_views,
                resources: images,
            },
        );
        assert(views(panels@) =~= shown);
        Ok(WorkspaceSnapshot { panels })
    }

    /// The process behind a Command.
    pub fn execute_command(
        &self,
        target: &ResourceTarget,
        command: ResourceCommand,
        state: Option<ResourceState>,
    ) -> (result: Result<ProcessSpec, WorkspaceError>)
        ensures
            process_result(result) == docker_command(target@, command, state),
    {
        if !same_text(target.panel_id().as_str(), "containers") {
            let mut text = "Docker has no ".to_owned();
            text.append(command.as_str());
            text.append(" command for Resource Panel ");
            text.append(target.panel_id().as_str());
            return Err(WorkspaceError { message: text });
        }
        let state = match require_resource_state(
            state,
            "Docker",
            "container",
            command,
            target.resource_id(),
        ) {
            Ok(state) => state,
            Err(error) => return Err(error),
        };
        let verb = match command {
            ResourceCommand::Start => "start",
            ResourceCommand::Stop => "stop",
            ResourceCommand::Restart => "restart",
            ResourceCommand::Resume => "unpause",
            ResourceCommand::Delete => "rm",
        };
        let id = target.resource_id().as_str();
        let process = if command == ResourceCommand::Delete && state != ResourceState::Stopped {
            ProcessSpec::new("docker", &["container", verb, "--force", id])
        } else {
            ProcessSpec::new("docker", &["container", verb, id])
        };
        assert(process@.args =~= docker_command(target@, command, Some(state))->Ok_0.args);
        Ok(process)
    }

    /// How a Command ended.
    pub fn command_ended(
        &self,
        target: &ResourceTarget,
        command: ResourceCommand,
        result: Result<ProcessOutput, ProcessError>,
    ) -> (ended: Result<(), WorkspaceError>)
        ensures
            ended is Ok <==> result is Ok,
            ended matches Err(error) ==> (result matches Err(cause) && error@ == cli_error_text(
                "Docker"@,
                cause@,
                "Docker could not "@ + resource_command_text(command) + " container "@
                    + target@.resource_id,
            )),
    {
        match result {
            Ok(_) => Ok(()),
            Err(error) => {
                let mut fallback = "Docker could not ".to_owned();
                fallback.append(command.as_str());
                fallback.append(" container ");
                fallback.append(target.resource_id().as_str());
                Err(
                    WorkspaceError {
                        message: provider_cli_error("Docker", &error, fallback.as_str()),
                    },
                )
            },
        }
    }

    /// The process behind a Detail View.
    pub fn load_details(&self, target: &ResourceTarget, view_id: &DetailViewId) -> (result: Result<
        ProcessSpec,
        WorkspaceError,
    >)
        ensures
            process_result(result) == docker_detail(target@, view_id@),
    {
        let id = target.resource_id().as_str();
        let view = view_id.as_str();
        if same_text(target.panel_id().as_str(), "containers") {
            if same_text(view, "logs") {
                let process = ProcessSpec::new(
                    "docker",
                    &["container", "logs", "--tail", "200", id],
                );
                assert(process@.args =~= docker_view(target@, view_id@)->0);
                return Ok(process);
            }
            if same_text(view, "stats") {
                let process = ProcessSpec::new("docker", &["container", "stats", "--no-stream", id]);
                assert(process@.args =~= docker_view(target@, view_id@)->0);
                return Ok(process);
            }
            if same_text(view, "inspect") {
                let process = ProcessSpec::new("docker", &["container", "inspect", id]);
                assert(process@.args =~= docker_view(target@, view_id@)->0);
                return Ok(process);
            }
        } else if same_text(target.panel_id().as_str(), "images") && same_text(view, "inspect") {
            let process = ProcessSpec::new("docker", &["image", "inspect", id]);
            assert(process@.args =~= docker_view(target@, view_id@)->0);
            return Ok(process);
        }
        let mut text = "Docker has no ".to_owned();
        text.append(view);
        text.append(" view for ");
        text.append(kind_of(target, view_id));
        text.append(" ");
        text.append(id);
        Err(WorkspaceError { message: text })
    }

    /// What a Detail View shows.
    pub fn details_loaded(
        &self,
        target: &ResourceTarget,
        view_id: &DetailViewId,
        result: Result<ProcessOutput, ProcessError>,
    ) -> (details: Result<ResourceDetails, WorkspaceError>)
        ensures
            details_result(details) == docker_details(target@, view_id@, ending(result)),
    {
        match result {
            Ok(output) => {
                let mut details = ResourceDetails::from_output(output.stdout.as_str());
                let mut more = ResourceDetails::from_output(output.stderr.as_str());
                let ghost first = details@;
                let ghost second = more@;
                details.lines.append(&mut more.lines);
                assert(details@ =~= first + second);
                Ok(details)
            },
            Err(error) => {
                let mut fallback = "Docker could not load ".to_owned();
                fallback.append(view_id.as_str());
                fallback.append(" for ");
                fallback.append(kind_of(target, view_id));
                fallback.append(" ");
                fallback.append(target.resource_id().as_str());
                Err(
                    WorkspaceError {
                        message: provider_cli_error("Docker", &error, fallback.as_str()),
                    },
                )
            },
        }
    }
}

fn kind_of<'a>(target: &'a ResourceTarget, view_id: &DetailViewId) -> (kind: &'a str)
    ensures
        kind@ == docker_kind(target@, view_id@),
{
    let panel = target.panel_id().as_str();
    if same_text(panel, "containers") {
        "container"
    } else if same_text(panel, "images") && same_text(view_id.as_str(), "inspect") {
        "image"
    } else {
        panel
    }
}

/// Only a stopped container is deleted without force, so an unrecognised status
/// can never masquerade as a stopped one.
pub proof fn law_only_a_stopped_container_is_deleted_plainly(
    target: TargetModel,
    state: ResourceState,
)
    requires
        target.panel_id == "containers"@,
    ensures
        docker_command(target, ResourceCommand::Delete, Some(state)) == Ok::<
            ProcessModel,
            Seq<char>,
        >(
            docker(
                if state == ResourceState::Stopped {
                    seq!["container"@, "rm"@, target.resource_id]
                } else {
                    seq!["container"@, "rm"@, "--force"@, target.resource_id]
                },
            ),
        ),
{
    let args = docker_command(target, ResourceCommand::Delete, Some(state))->Ok_0.args;
    if state == ResourceState::Stopped {
        assert(args =~= seq!["container"@, "rm"@, target.resource_id]);
    } else {
        assert(args =~= seq!["container"@, "rm"@, "--force"@, target.resource_id]);
    }
}

/// A shell is offered inside running containers, and only there.
pub proof fn law_only_running_containers_offer_a_shell(row: ContainerRowModel)
    ensures
        container_resource(row).shell is Some <==> container_state(row.state)
            == ResourceState::Running,
{
}

} // verus!
