//! What Provider CLIs are asked to do, word for word, and what their answers
//! become.

use vstd::prelude::*;

use super::docker::{
    container_listing, container_query, container_state, context_query, docker_command,
    docker_detail, docker_details, docker_discovery, docker_snapshot, image_listing, image_query,
    listed_rows, listing, listing_failure, ContainerRow, ImageRow,
};
use super::docker_sandbox::version_query;
use super::incus::{
    incus_command, incus_detail, incus_details, incus_discovery, incus_listing_failure,
    incus_panels, instance_query, instance_resources, instance_state, project_query, remote_query,
    InstanceRow,
};
use super::cli_error_text;
use crate::application::command::{resource_command_text, ResourceCommand};
use crate::application::provider::{
    output_lines, DetailViewModel, DetailViewSource, PanelModel, ResourceModel,
};
use crate::application::shell::ProcessModel;
use crate::domain::{ProviderModel, ResourceState, TargetModel};
use crate::infrastructure::process::{FailureModel, OutputModel, ProcessErrorModel};
use crate::text::{
    ascii_lower, law_a_blank_text_is_trimmed_to_nothing, same_ignoring_case, trimmed,
};

verus! {

/// A process that runs.
pub open spec fn runs(program: Seq<char>, args: Seq<Seq<char>>) -> Result<ProcessModel, Seq<char>> {
    Ok(ProcessModel { program, args })
}

/// Every Docker Command runs the operation of its name on the very container,
/// whatever its state: resuming is Docker's `unpause`, and deleting is `rm`,
/// forced unless the container is stopped.
pub proof fn law_docker_runs_the_operation_asked_for(id: Seq<char>, state: ResourceState)
    ensures
        ({
            let target = TargetModel { panel_id: "containers"@, resource_id: id };
            let known = Some(state);
            &&& docker_command(target, ResourceCommand::Start, known) == runs(
                "docker"@,
                seq!["container"@, "start"@, id],
            )
            &&& docker_command(target, ResourceCommand::Stop, known) == runs(
                "docker"@,
                seq!["container"@, "stop"@, id],
            )
            &&& docker_command(target, ResourceCommand::Restart, known) == runs(
                "docker"@,
                seq!["container"@, "restart"@, id],
            )
            &&& docker_command(target, ResourceCommand::Resume, known) == runs(
                "docker"@,
                seq!["container"@, "unpause"@, id],
            )
            &&& docker_command(target, ResourceCommand::Delete, known) == runs(
                "docker"@,
                if state == ResourceState::Stopped {
                    seq!["container"@, "rm"@, id]
                } else {
                    seq!["container"@, "rm"@, "--force"@, id]
                },
            )
        }),
{
    let target = TargetModel { panel_id: "containers"@, resource_id: id };
    let known = Some(state);
    let start = docker_command(target, ResourceCommand::Start, known)->Ok_0.args;
    let stop = docker_command(target, ResourceCommand::Stop, known)->Ok_0.args;
    let restart = docker_command(target, ResourceCommand::Restart, known)->Ok_0.args;
    let resume = docker_command(target, ResourceCommand::Resume, known)->Ok_0.args;
    let delete = docker_command(target, ResourceCommand::Delete, known)->Ok_0.args;
    assert(start =~= seq!["container"@, "start"@, id]);
    assert(stop =~= seq!["container"@, "stop"@, id]);
    assert(restart =~= seq!["container"@, "restart"@, id]);
    assert(resume =~= seq!["container"@, "unpause"@, id]);
    if state == ResourceState::Stopped {
        assert(delete =~= seq!["container"@, "rm"@, id]);
    } else {
        assert(delete =~= seq!["container"@, "rm"@, "--force"@, id]);
    }
}

/// Every Incus Command runs the operation of its name on the very instance:
/// resuming is Incus's `unfreeze`, and deleting is forced unless the instance
/// is stopped.
pub proof fn law_incus_runs_the_operation_asked_for(id: Seq<char>, state: ResourceState)
    ensures
        ({
            let target = TargetModel { panel_id: "instances"@, resource_id: id };
            let known = Some(state);
            &&& incus_command(target, ResourceCommand::Start, known) == runs(
                "incus"@,
                seq!["start"@, id],
            )
            &&& incus_command(target, ResourceCommand::Stop, known) == runs(
                "incus"@,
                seq!["stop"@, id],
            )
            &&& incus_command(target, ResourceCommand::Restart, known) == runs(
                "incus"@,
                seq!["restart"@, id],
            )
            &&& incus_command(target, ResourceCommand::Resume, known) == runs(
                "incus"@,
                seq!["unfreeze"@, id],
            )
            &&& incus_command(target, ResourceCommand::Delete, known) == runs(
                "incus"@,
                if state == ResourceState::Stopped {
                    seq!["delete"@, id]
                } else {
                    seq!["delete"@, "--force"@, id]
                },
            )
        }),
{
    let target = TargetModel { panel_id: "instances"@, resource_id: id };
    let known = Some(state);
    let start = incus_command(target, ResourceCommand::Start, known)->Ok_0.args;
    let stop = incus_command(target, ResourceCommand::Stop, known)->Ok_0.args;
    let restart = incus_command(target, ResourceCommand::Restart, known)->Ok_0.args;
    let resume = incus_command(target, ResourceCommand::Resume, known)->Ok_0.args;
    let delete = incus_command(target, ResourceCommand::Delete, known)->Ok_0.args;
    assert(start =~= seq!["start"@, id]);
    assert(stop =~= seq!["stop"@, id]);
    assert(restart =~= seq!["restart"@, id]);
    assert(resume =~= seq!["unfreeze"@, id]);
    if state == ResourceState::Stopped {
        assert(delete =~= seq!["delete"@, id]);
    } else {
        assert(delete =~= seq!["delete"@, "--force"@, id]);
    }
}

/// The word for a Command.
pub open spec fn word(command: ResourceCommand) -> Seq<char> {
    match command {
        ResourceCommand::Start => "start"@,
        ResourceCommand::Stop => "stop"@,
        ResourceCommand::Restart => "restart"@,
        ResourceCommand::Resume => "resume"@,
        ResourceCommand::Delete => "delete"@,
    }
}

/// Nothing is run on a Resource of another panel, nor on one whose state is not
/// known; the refusal names the Command, and the panel or the Resource.
pub proof fn law_refused_commands_run_nothing(
    target: TargetModel,
    command: ResourceCommand,
    state: Option<ResourceState>,
)
    ensures
        target.panel_id != "containers"@ ==> docker_command(target, command, state) == Err::<
            ProcessModel,
            Seq<char>,
        >("Docker has no "@ + word(command) + " command for Resource Panel "@ + target.panel_id),
        target.panel_id == "containers"@ ==> docker_command(target, command, None) == Err::<
            ProcessModel,
            Seq<char>,
        >(
            "Docker"@ + " could not "@ + word(command) + " "@ + "container"@ + " "@
                + target.resource_id + ": its state is not known"@,
        ),
        target.panel_id != "instances"@ ==> incus_command(target, command, state) == Err::<
            ProcessModel,
            Seq<char>,
        >("Incus has no "@ + word(command) + " command for Resource Panel "@ + target.panel_id),
        target.panel_id == "instances"@ ==> incus_command(target, command, None) == Err::<
            ProcessModel,
            Seq<char>,
        >(
            "Incus"@ + " could not "@ + word(command) + " "@ + "instance"@ + " "@
                + target.resource_id + ": its state is not known"@,
        ),
        resource_command_text(command) == word(command),
{
}

/// Every Detail View of Docker runs one listing of its own on the very
/// Resource.
pub proof fn law_docker_views_run_their_own_process(id: Seq<char>)
    ensures
        ({
            let container = TargetModel { panel_id: "containers"@, resource_id: id };
            let image = TargetModel { panel_id: "images"@, resource_id: id };
            &&& docker_detail(container, "logs"@) == runs(
                "docker"@,
                seq!["container"@, "logs"@, "--tail"@, "200"@, id],
            )
            &&& docker_detail(container, "stats"@) == runs(
                "docker"@,
                seq!["container"@, "stats"@, "--no-stream"@, id],
            )
            &&& docker_detail(container, "inspect"@) == runs(
                "docker"@,
                seq!["container"@, "inspect"@, id],
            )
            &&& docker_detail(image, "inspect"@) == runs(
                "docker"@,
                seq!["image"@, "inspect"@, id],
            )
        }),
{
    reveal_strlit("containers");
    reveal_strlit("images");
    reveal_strlit("logs");
    reveal_strlit("stats");
    reveal_strlit("inspect");
    assert("containers"@.len() != "images"@.len());
    assert("logs"@.len() != "stats"@.len());
    assert("logs"@.len() != "inspect"@.len());
    assert("stats"@.len() != "inspect"@.len());
}

/// Every Detail View of Incus runs one question of its own on the very
/// instance.
pub proof fn law_incus_views_run_their_own_process(id: Seq<char>)
    ensures
        ({
            let instance = TargetModel { panel_id: "instances"@, resource_id: id };
            &&& incus_detail(instance, "info"@) == runs("incus"@, seq!["info"@, id])
            &&& incus_detail(instance, "config"@) == runs(
                "incus"@,
                seq!["config"@, "show"@, id],
            )
            &&& incus_detail(instance, "console-log"@) == runs(
                "incus"@,
                seq!["console"@, "--show-log"@, id],
            )
        }),
{
    reveal_strlit("info");
    reveal_strlit("config");
    reveal_strlit("console-log");
    assert("info"@.len() != "config"@.len());
    assert("info"@.len() != "console-log"@.len());
    assert("config"@.len() != "console-log"@.len());
}

/// A view that no Provider declares is refused, and the refusal names the view
/// and what it was asked of.
pub proof fn law_undeclared_views_run_nothing(target: TargetModel, view_id: Seq<char>)
    ensures
        target.panel_id == "containers"@ && view_id != "logs"@ && view_id != "stats"@ && view_id
            != "inspect"@ ==> docker_detail(target, view_id) == Err::<ProcessModel, Seq<char>>(
            "Docker has no "@ + view_id + " view for "@ + "container"@ + " "@ + target.resource_id,
        ),
        target.panel_id != "containers"@ && !(target.panel_id == "images"@ && view_id
            == "inspect"@) ==> docker_detail(target, view_id) == Err::<ProcessModel, Seq<char>>(
            "Docker has no "@ + view_id + " view for "@ + target.panel_id + " "@
                + target.resource_id,
        ),
        target.panel_id == "instances"@ && view_id != "info"@ && view_id != "config"@ && view_id
            != "console-log"@ ==> incus_detail(target, view_id) == Err::<ProcessModel, Seq<char>>(
            "Incus has no "@ + view_id + " view for instance "@ + target.resource_id,
        ),
        target.panel_id != "instances"@ ==> incus_detail(target, view_id) == Err::<
            ProcessModel,
            Seq<char>,
        >("Incus has no "@ + view_id + " view for Resource Panel "@ + target.panel_id),
{
}

/// What a view shows is what its process wrote: of Docker both streams, first
/// what went to stdout; of Incus stdout alone.
pub proof fn law_views_show_what_was_written(
    target: TargetModel,
    view_id: Seq<char>,
    stdout: Seq<char>,
    stderr: Seq<char>,
)
    ensures
        docker_details(target, view_id, Ok(OutputModel { stdout, stderr })) == Ok::<
            Seq<Seq<char>>,
            Seq<char>,
        >(output_lines(stdout) + output_lines(stderr)),
        incus_details(target, view_id, Ok(OutputModel { stdout, stderr })) == Ok::<
            Seq<Seq<char>>,
            Seq<char>,
        >(output_lines(stdout)),
{
}

/// Whether a text reads as a lowercase word, capitals counting as the letters
/// they are.
pub open spec fn reads(text: Seq<char>, word: Seq<char>) -> bool {
    &&& text.len() == word.len()
    &&& forall|i: int|
        0 <= i < text.len() ==> #[trigger] text[i] == word[i] || ('A' <= text[i] <= 'Z' && text[i]
            as u32 + 32 == word[i] as u32)
}

proof fn lemma_reads(text: Seq<char>, word: Seq<char>)
    requires
        forall|i: int| 0 <= i < word.len() ==> 'a' <= #[trigger] word[i] <= 'z',
    ensures
        same_ignoring_case(text, word) == reads(text, word),
{
    if text.len() == word.len() {
        assert forall|i: int| 0 <= i < text.len() implies (ascii_lower(#[trigger] text[i])
            == ascii_lower(word[i])) == (text[i] == word[i] || ('A' <= text[i] <= 'Z' && text[i]
            as u32 + 32 == word[i] as u32)) by {
            assert('a' <= word[i] <= 'z');
        }
        if reads(text, word) {
            assert forall|i: int| 0 <= i < text.len() implies ascii_lower(#[trigger] text[i])
                == ascii_lower(word[i]) by {}
        }
        if same_ignoring_case(text, word) {
            assert forall|i: int| 0 <= i < text.len() implies #[trigger] text[i] == word[i] || (
            'A' <= text[i] <= 'Z' && text[i] as u32 + 32 == word[i] as u32) by {
                assert(ascii_lower(text[i]) == ascii_lower(word[i]));
            }
        }
    }
}

/// Docker's words for the state of a container: every state is read off the
/// words that mean it, and off no others.
pub proof fn law_docker_states_are_read_off_their_words(text: Seq<char>)
    ensures
        container_state(text) == ResourceState::Running <==> reads(text, "running"@),
        container_state(text) == ResourceState::Stopped <==> reads(text, "exited"@) || reads(
            text,
            "created"@,
        ),
        container_state(text) == ResourceState::Paused <==> reads(text, "paused"@),
        container_state(text) == ResourceState::Transitioning <==> reads(text, "restarting"@)
            || reads(text, "removing"@),
        container_state(text) == ResourceState::Broken <==> reads(text, "dead"@),
{
    reveal_strlit("running");
    reveal_strlit("exited");
    reveal_strlit("created");
    reveal_strlit("paused");
    reveal_strlit("restarting");
    reveal_strlit("removing");
    reveal_strlit("dead");
    lemma_reads(text, "running"@);
    lemma_reads(text, "exited"@);
    lemma_reads(text, "created"@);
    lemma_reads(text, "paused"@);
    lemma_reads(text, "restarting"@);
    lemma_reads(text, "removing"@);
    lemma_reads(text, "dead"@);
    if text.len() == 6 {
        assert("exited"@[0] == 'e' && "paused"@[0] == 'p');
        assert(reads(text, "exited"@) ==> text[0] == 'e' || text[0] == 'E');
        assert(reads(text, "paused"@) ==> text[0] == 'p' || text[0] == 'P');
    }
    if text.len() == 7 {
        assert("running"@[0] == 'r' && "created"@[0] == 'c');
        assert(reads(text, "running"@) ==> text[0] == 'r' || text[0] == 'R');
        assert(reads(text, "created"@) ==> text[0] == 'c' || text[0] == 'C');
    }
}

/// Incus's words for the state of an instance: every state is read off the
/// words that mean it, and off no others.
pub proof fn law_incus_states_are_read_off_their_words(text: Seq<char>)
    ensures
        instance_state(text) == ResourceState::Running <==> reads(text, "running"@),
        instance_state(text) == ResourceState::Stopped <==> reads(text, "stopped"@),
        instance_state(text) == ResourceState::Paused <==> reads(text, "frozen"@),
        instance_state(text) == ResourceState::Transitioning <==> reads(text, "starting"@)
            || reads(text, "stopping"@) || reads(text, "freezing"@) || reads(text, "thawing"@),
        instance_state(text) == ResourceState::Broken <==> reads(text, "error"@),
{
    reveal_strlit("running");
    reveal_strlit("stopped");
    reveal_strlit("frozen");
    reveal_strlit("starting");
    reveal_strlit("stopping");
    reveal_strlit("freezing");
    reveal_strlit("thawing");
    reveal_strlit("error");
    lemma_reads(text, "running"@);
    lemma_reads(text, "stopped"@);
    lemma_reads(text, "frozen"@);
    lemma_reads(text, "starting"@);
    lemma_reads(text, "stopping"@);
    lemma_reads(text, "freezing"@);
    lemma_reads(text, "thawing"@);
    lemma_reads(text, "error"@);
    if text.len() == 7 {
        assert(reads(text, "running"@) ==> text[0] == 'r' || text[0] == 'R');
        assert(reads(text, "stopped"@) ==> text[0] == 's' || text[0] == 'S');
        assert(reads(text, "thawing"@) ==> text[0] == 't' || text[0] == 'T');
    }
}

/// What can be done with a Resource in a state.
pub open spec fn doable(state: ResourceState) -> Seq<ResourceCommand> {
    match state {
        ResourceState::Running => seq![
            ResourceCommand::Stop,
            ResourceCommand::Restart,
            ResourceCommand::Delete,
        ],
        ResourceState::Stopped => seq![ResourceCommand::Start, ResourceCommand::Delete],
        ResourceState::Paused => seq![ResourceCommand::Resume, ResourceCommand::Delete],
        _ => seq![ResourceCommand::Delete],
    }
}

/// Listed rows, all of them well formed.
pub open spec fn well_formed_rows<R>(rows: Seq<Result<R, String>>) -> bool {
    forall|i: int| 0 <= i < rows.len() ==> #[trigger] rows[i] is Ok
}

proof fn lemma_listing<R>(
    rows: Seq<Result<R, String>>,
    resource: spec_fn(R) -> ResourceModel,
    complaint: Seq<char>,
    help: Seq<char>,
)
    requires
        well_formed_rows(rows),
    ensures
        listing(rows, resource, complaint, help) is Ok,
        listing(rows, resource, complaint, help)->Ok_0.len() == rows.len(),
        forall|i: int|
            0 <= i < rows.len() ==> #[trigger] listing(rows, resource, complaint, help)->Ok_0[i]
                == resource(rows[i]->Ok_0),
    decreases rows.len(),
{
    if rows.len() > 0 {
        assert(rows[rows.len() - 1] is Ok);
        assert forall|i: int| 0 <= i < rows.drop_last().len() implies #[trigger] rows.drop_last()[i]
            is Ok by {
            assert(rows[i] is Ok);
        }
        lemma_listing(rows.drop_last(), resource, complaint, help);
        let earlier = listing(rows.drop_last(), resource, complaint, help)->Ok_0;
        assert forall|i: int| 0 <= i < rows.len() implies #[trigger] listing(
            rows,
            resource,
            complaint,
            help,
        )->Ok_0[i] == resource(rows[i]->Ok_0) by {
            if i < rows.len() - 1 {
                assert(earlier[i] == resource(rows.drop_last()[i]->Ok_0));
            }
        }
    }
}

pub open spec fn offered_view(id: Seq<char>, title: Seq<char>) -> DetailViewModel {
    DetailViewModel { id, title, source: DetailViewSource::Provider }
}

/// A refresh of Docker lists every container in its place, under its own
/// identity and name.
pub proof fn law_docker_lists_every_container(
    containers: Seq<Result<ContainerRow, String>>,
    images: Seq<Result<ImageRow, String>>,
    i: int,
)
    requires
        well_formed_rows(containers),
        well_formed_rows(images),
    ensures
        ({
            let panel = docker_snapshot(containers, images)->Ok_0[0];
            let row = containers[i]->Ok_0;
            let resource = panel.resources[i];
            &&& docker_snapshot(containers, images) is Ok
            &&& docker_snapshot(containers, images)->Ok_0.len() == 2
            &&& panel.id == "containers"@
            &&& panel.title == "Containers"@
            &&& panel.detail_views == seq![
                offered_view("logs"@, "Logs"@),
                offered_view("stats"@, "Stats"@),
                offered_view("inspect"@, "Inspect"@),
            ]
            &&& panel.resources.len() == containers.len()
            &&& 0 <= i < containers.len() ==> {
                &&& resource.id == row.id@
                &&& resource.name == row.names@
                &&& resource.secondary_text is None
                &&& resource.status == Some(row.state@)
                &&& resource.fields == seq![("Image"@, row.image@), ("Status"@, row.status@)]
                &&& resource.snapshot_details.len() == 0
                &&& resource.state is Some
                &&& resource.state->0 == ResourceState::Running <==> reads(row.state@, "running"@)
                &&& resource.state == Some(container_state(row.state@))
                &&& resource.available_commands == doable(resource.state->0)
                &&& resource.shell == (if reads(row.state@, "running"@) {
                    Some(
                        ProcessModel {
                            program: "docker"@,
                            args: seq!["exec"@, "-it"@, row.id@, "/bin/sh"@],
                        },
                    )
                } else {
                    None
                })
            }
        }),
{
    lemma_listing(
        containers,
        |row: ContainerRow| super::docker::container_resource(row@),
        "Docker returned malformed container data: "@,
        super::docker::container_help(),
    );
    lemma_listing(
        images,
        |row: ImageRow| super::docker::image_resource(row@),
        "Docker returned malformed image data: "@,
        super::docker::image_help(),
    );
    assert(container_listing(containers) is Ok);
    assert(image_listing(images) is Ok);
    if 0 <= i < containers.len() {
        law_docker_states_are_read_off_their_words(containers[i]->Ok_0.state@);
        assert(container_listing(containers)->Ok_0[i] == super::docker::container_resource(
            containers[i]->Ok_0@,
        ));
    }
}

/// A refresh of Docker lists every image in its place, under the name that
/// Docker accepts for it: its repository and tag, or its digest where it has no
/// tag.
pub proof fn law_docker_lists_every_image(
    containers: Seq<Result<ContainerRow, String>>,
    images: Seq<Result<ImageRow, String>>,
    i: int,
)
    requires
        well_formed_rows(containers),
        well_formed_rows(images),
    ensures
        ({
            let panel = docker_snapshot(containers, images)->Ok_0[1];
            let row = images[i]->Ok_0;
            let resource = panel.resources[i];
            &&& panel.id == "images"@
            &&& panel.title == "Images"@
            &&& panel.detail_views == seq![offered_view("inspect"@, "Inspect"@)]
            &&& panel.resources.len() == images.len()
            &&& 0 <= i < images.len() ==> {
                &&& resource.id == resource.name
                &&& resource.name == (if row.repository@ == "<none>"@ || row.tag@ == "<none>"@ {
                    row.id@
                } else {
                    row.repository@ + ":"@ + row.tag@
                })
                &&& resource.secondary_text is None
                &&& resource.status is None
                &&& resource.state is None
                &&& resource.fields == seq![
                    ("Repository"@, row.repository@),
                    ("Tag"@, row.tag@),
                    ("Identity"@, row.id@),
                    ("Size"@, row.size@),
                ]
                &&& resource.snapshot_details.len() == 0
                &&& resource.available_commands.len() == 0
                &&& resource.shell is None
            }
        }),
{
    lemma_listing(
        containers,
        |row: ContainerRow| super::docker::container_resource(row@),
        "Docker returned malformed container data: "@,
        super::docker::container_help(),
    );
    lemma_listing(
        images,
        |row: ImageRow| super::docker::image_resource(row@),
        "Docker returned malformed image data: "@,
        super::docker::image_help(),
    );
    assert(container_listing(containers) is Ok);
    assert(image_listing(images) is Ok);
    if 0 <= i < images.len() {
        assert(image_listing(images)->Ok_0[i] == super::docker::image_resource(images[i]->Ok_0@));
    }
}

proof fn lemma_first_malformed<R>(
    rows: Seq<Result<R, String>>,
    resource: spec_fn(R) -> ResourceModel,
    complaint: Seq<char>,
    help: Seq<char>,
    first: int,
)
    requires
        0 <= first < rows.len(),
        rows[first] is Err,
        forall|i: int| 0 <= i < first ==> #[trigger] rows[i] is Ok,
    ensures
        listing(rows, resource, complaint, help) == Err::<Seq<ResourceModel>, Seq<char>>(
            complaint + rows[first]->Err_0@ + ". "@ + help,
        ),
    decreases rows.len(),
{
    let earlier = rows.drop_last();
    if first == rows.len() - 1 {
        assert forall|i: int| 0 <= i < earlier.len() implies #[trigger] earlier[i] is Ok by {
            assert(rows[i] is Ok);
        }
        lemma_listing(earlier, resource, complaint, help);
    } else {
        assert(earlier[first] == rows[first]);
        assert forall|i: int| 0 <= i < first implies #[trigger] earlier[i] is Ok by {
            assert(rows[i] is Ok);
        }
        lemma_first_malformed(earlier, resource, complaint, help, first);
    }
}

/// A malformed row fails the whole refresh of Docker: the first malformed
/// container is what is reported, and the first malformed image where every
/// container is well formed.
pub proof fn law_a_malformed_row_fails_the_refresh(
    containers: Seq<Result<ContainerRow, String>>,
    images: Seq<Result<ImageRow, String>>,
    first: int,
)
    ensures
        0 <= first < containers.len() && containers[first] is Err && well_formed_rows(
            containers.take(first),
        ) ==> docker_snapshot(containers, images) == Err::<Seq<PanelModel>, Seq<char>>(
            "Docker returned malformed container data: "@ + containers[first]->Err_0@ + ". "@
                + "Run `docker container ls --all` to verify access to the current Target Environment."@,
        ),
        well_formed_rows(containers) && 0 <= first < images.len() && images[first] is Err
            && well_formed_rows(images.take(first)) ==> docker_snapshot(containers, images)
            == Err::<Seq<PanelModel>, Seq<char>>(
            "Docker returned malformed image data: "@ + images[first]->Err_0@ + ". "@
                + "Run `docker image ls` to verify access to the current Target Environment."@,
        ),
{
    if 0 <= first < containers.len() && containers[first] is Err && well_formed_rows(
        containers.take(first),
    ) {
        assert forall|i: int| 0 <= i < first implies #[trigger] containers[i] is Ok by {
            assert(containers.take(first)[i] is Ok);
        }
        lemma_first_malformed(
            containers,
            |row: ContainerRow| super::docker::container_resource(row@),
            "Docker returned malformed container data: "@,
            super::docker::container_help(),
            first,
        );
    }
    if well_formed_rows(containers) && 0 <= first < images.len() && images[first] is Err
        && well_formed_rows(images.take(first)) {
        lemma_listing(
            containers,
            |row: ContainerRow| super::docker::container_resource(row@),
            "Docker returned malformed container data: "@,
            super::docker::container_help(),
        );
        assert forall|i: int| 0 <= i < first implies #[trigger] images[i] is Ok by {
            assert(images.take(first)[i] is Ok);
        }
        lemma_first_malformed(
            images,
            |row: ImageRow| super::docker::image_resource(row@),
            "Docker returned malformed image data: "@,
            super::docker::image_help(),
            first,
        );
    }
}

/// A refresh of Incus lists every instance in its place, under its own name.
pub proof fn law_incus_lists_every_instance(rows: Seq<InstanceRow>, i: int)
    ensures
        ({
            let panels = incus_panels(instance_resources(rows));
            let row = rows[i];
            let resource = panels[0].resources[i];
            &&& panels.len() == 1
            &&& panels[0].id == "instances"@
            &&& panels[0].title == "Instances"@
            &&& panels[0].detail_views == seq![
                offered_view("info"@, "Info"@),
                offered_view("config"@, "Config"@),
                offered_view("console-log"@, "Console Log"@),
            ]
            &&& panels[0].resources.len() == rows.len()
            &&& 0 <= i < rows.len() ==> {
                &&& resource.id == row.name@
                &&& resource.name == row.name@
                &&& resource.secondary_text is None
                &&& resource.status == Some(row.status@)
                &&& resource.state == Some(instance_state(row.status@))
                &&& resource.fields == seq![
                    ("Type"@, row.instance_type@),
                    ("Architecture"@, row.architecture@),
                    ("Location"@, row.location@),
                ]
                &&& resource.snapshot_details.len() == 0
                &&& resource.available_commands == doable(resource.state->0)
                &&& resource.shell == (if reads(row.status@, "running"@) {
                    Some(
                        ProcessModel {
                            program: "incus"@,
                            args: seq!["exec"@, row.name@, "--"@, "su"@, "-l"@],
                        },
                    )
                } else {
                    None
                })
            }
        }),
{
    if 0 <= i < rows.len() {
        law_incus_states_are_read_off_their_words(rows[i].status@);
    }
}

pub open spec fn provider(id: Seq<char>, name: Seq<char>, target: Option<Seq<char>>) -> ProviderModel {
    ProviderModel { id, name, target_environment: target, version: None }
}

/// What a failed process said: its trimmed stderr, else its trimmed stdout, and
/// the fallback only where neither says anything.
pub open spec fn said(failure: FailureModel, fallback: Seq<char>) -> Seq<char> {
    if trimmed(failure.stderr).len() > 0 {
        trimmed(failure.stderr)
    } else if trimmed(failure.stdout).len() > 0 {
        trimmed(failure.stdout)
    } else {
        fallback
    }
}

/// What is said of a CLI that failed: that it is gone, that it would not start
/// and why, or what it said itself.
pub proof fn law_a_failed_cli_is_quoted(
    name: Seq<char>,
    reason: Seq<char>,
    failure: FailureModel,
    fallback: Seq<char>,
)
    ensures
        cli_error_text(name, ProcessErrorModel::ExecutableNotFound, fallback) == name
            + " CLI is no longer available"@,
        cli_error_text(name, ProcessErrorModel::SpawnFailed(reason), fallback) == name
            + " CLI could not be started: "@ + reason,
        cli_error_text(name, ProcessErrorModel::Exited(failure), fallback) == said(
            failure,
            fallback,
        ),
{
}

/// Docker is offered exactly where its CLI is there, in the context that it
/// names; where it cannot name one, it is offered with the reason and what to
/// run.
pub proof fn law_docker_is_discovered_in_its_context(
    output: OutputModel,
    reason: Seq<char>,
    failure: FailureModel,
)
    ensures
        docker_discovery(Err(ProcessErrorModel::ExecutableNotFound)) is None,
        docker_discovery(Ok(output)) matches Some(found) && found.error is None && found.provider
            == provider("docker"@, "Docker"@, Some(trimmed(output.stdout))),
        docker_discovery(Err(ProcessErrorModel::SpawnFailed(reason))) matches Some(found)
            && found.provider == provider("docker"@, "Docker"@, None) && found.error == Some(
            ("Docker CLI could not be started: "@ + reason) + ". "@
                + "Run `docker context show` to verify the selected context and ensure Docker is running."@,
        ),
        docker_discovery(Err(ProcessErrorModel::Exited(failure))) matches Some(found)
            && found.provider == provider("docker"@, "Docker"@, None) && found.error == Some(
            said(failure, "Docker could not report its current context"@) + ". "@
                + "Run `docker context show` to verify the selected context and ensure Docker is running."@,
        ),
{
}

/// Incus is offered exactly where its CLI is there, with the remote and then the
/// project as its Target Environment; a remote that cannot be named is reported
/// before a project.
pub proof fn law_incus_is_discovered_in_its_project(
    remote: OutputModel,
    project: OutputModel,
    failed: FailureModel,
    any: Result<OutputModel, ProcessErrorModel>,
)
    ensures
        incus_discovery(Err(ProcessErrorModel::ExecutableNotFound), any) is None,
        incus_discovery(Ok(remote), Ok(project)) matches Some(found) && found.error is None
            && found.provider == provider(
            "incus"@,
            "Incus"@,
            Some(trimmed(remote.stdout) + " / "@ + trimmed(project.stdout)),
        ),
        incus_discovery(Err(ProcessErrorModel::Exited(failed)), any) matches Some(found)
            && found.provider == provider("incus"@, "Incus"@, None) && found.error == Some(
            said(failed, "Incus could not report its default remote"@) + ". "@ + ("Run `"@
                + "incus remote get-default"@ + "` to verify the selected Target Environment."@),
        ),
        incus_discovery(Ok(remote), Err(ProcessErrorModel::Exited(failed))) matches Some(found)
            && found.provider == provider("incus"@, "Incus"@, None) && found.error == Some(
            said(failed, "Incus could not report the current project"@) + ". "@ + ("Run `"@
                + "incus project get-current"@ + "` to verify the selected Target Environment."@),
        ),
{
}

/// A failed listing brings the advice to run it by hand where the CLI could
/// answer, and no advice where it is gone or would not start.
pub proof fn law_failed_listings_advise_only_where_it_helps(
    failure: FailureModel,
    reason: Seq<char>,
    fallback: Seq<char>,
    help: Seq<char>,
)
    ensures
        listing_failure(ProcessErrorModel::Exited(failure), fallback, help) == said(
            failure,
            fallback,
        ) + ". "@ + help,
        listing_failure(ProcessErrorModel::ExecutableNotFound, fallback, help) == "Docker"@
            + " CLI is no longer available"@,
        listing_failure(ProcessErrorModel::SpawnFailed(reason), fallback, help) == "Docker"@
            + " CLI could not be started: "@ + reason,
        incus_listing_failure(ProcessErrorModel::Exited(failure)) == said(
            failure,
            "Incus could not list instances"@,
        ) + ". "@ + "Run `incus list` to verify access to the current Target Environment."@,
        incus_listing_failure(ProcessErrorModel::ExecutableNotFound) == "Incus"@
            + " CLI is no longer available"@,
        incus_listing_failure(ProcessErrorModel::SpawnFailed(reason)) == "Incus"@
            + " CLI could not be started: "@ + reason,
{
}

/// The Providers are asked by these processes: which context or project is
/// current, and what there is, containers that are stopped among them and
/// identities in full.
pub proof fn law_the_providers_are_asked_by_their_clis()
    ensures
        context_query() == (ProcessModel {
            program: "docker"@,
            args: seq!["context"@, "show"@],
        }),
        container_query() == (ProcessModel {
            program: "docker"@,
            args: seq!["container"@, "ls"@, "--all"@, "--no-trunc"@, "--format"@, "{{json .}}"@],
        }),
        image_query() == (ProcessModel {
            program: "docker"@,
            args: seq!["image"@, "ls"@, "--no-trunc"@, "--format"@, "{{json .}}"@],
        }),
        remote_query() == (ProcessModel {
            program: "incus"@,
            args: seq!["remote"@, "get-default"@],
        }),
        project_query() == (ProcessModel {
            program: "incus"@,
            args: seq!["project"@, "get-current"@],
        }),
        instance_query() == (ProcessModel {
            program: "incus"@,
            args: seq!["list"@, "--format=json"@],
        }),
        version_query() == (ProcessModel {
            program: "sbx"@,
            args: seq!["version"@],
        }),
{
}

/// Of a listing every line that is not blank is a row, in order.
pub proof fn law_blank_lines_are_no_rows(all: Seq<Seq<char>>, line: Seq<char>)
    ensures
        listed_rows(Seq::empty()).len() == 0,
        trimmed(line).len() == 0 ==> listed_rows(all.push(line)) == listed_rows(all),
        trimmed(line).len() > 0 ==> listed_rows(all.push(line)) == listed_rows(all).push(line),
{
    assert(all.push(line).drop_last() =~= all);
    law_a_blank_text_is_trimmed_to_nothing(line);
}

} // verus!
