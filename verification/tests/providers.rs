//! Provider CLIs: what is run, and what is made of the answers.

use tuivir::application::{
    lifecycle_commands, AppEvent, LifecycleCommandPolicy, ProviderRequest, ProviderRequestId,
    ResourceCommand, ResourceDetails, WorkspaceError, WorkspaceSnapshot,
};
use tuivir::domain::{
    DetailViewId, Provider, ProviderId, ResourceId, ResourcePanelId, ResourceState, ResourceTarget,
};
use tuivir::infrastructure::process::{
    captured, start_failure, ProcessError, ProcessFailure, ProcessOutput, ProcessSpec,
};
use tuivir::infrastructure::provider::docker::{
    docker_resource_state, listing_rows, ContainerRow, DockerWorkspace, ImageRow,
};
use tuivir::infrastructure::provider::docker_sandbox::DockerSandboxWorkspace;
use tuivir::infrastructure::provider::incus::{incus_resource_state, IncusWorkspace, InstanceRow};
use tuivir::infrastructure::provider::{provider_cli_error, ProviderDiscovery};
use tuivir::infrastructure::runtime::{
    completion, BuiltinProvider, ProviderOutcome, ProviderRuntime, REFRESH_INTERVAL_MILLIS,
};

fn output(stdout: &str, stderr: &str) -> Result<ProcessOutput, ProcessError> {
    captured(true, Some(0), stdout.to_owned(), stderr.to_owned())
}

fn failed(stderr: &str) -> ProcessError {
    ProcessError::Exited(ProcessFailure {
        exit_code: Some(1),
        stdout: String::new(),
        stderr: stderr.to_owned(),
    })
}

fn target(panel: &str, id: &str) -> ResourceTarget {
    ResourceTarget::new(ResourcePanelId::new(panel), ResourceId::new(id))
}

fn container(id: &str, state: &str) -> ContainerRow {
    ContainerRow {
        id: id.to_owned(),
        image: "nginx:1.27".to_owned(),
        names: "api".to_owned(),
        state: state.to_owned(),
        status: "Up 2 hours".to_owned(),
    }
}

fn image(repository: &str, tag: &str) -> ImageRow {
    ImageRow {
        id: "sha256:1".to_owned(),
        repository: repository.to_owned(),
        tag: tag.to_owned(),
        size: "10MB".to_owned(),
    }
}

#[test]
fn a_failed_process_says_the_most_specific_thing_it_left_behind() {
    let mut failure = ProcessFailure {
        exit_code: Some(1),
        stdout: " out ".to_owned(),
        stderr: " err \n".to_owned(),
    };
    assert_eq!(failure.message_or("fallback"), "err");
    failure.stderr = " \n".to_owned();
    assert_eq!(failure.message_or("fallback"), "out");
    failure.stdout = String::new();
    assert_eq!(failure.message_or("fallback"), "fallback");
}

#[test]
fn processes_end_in_output_or_in_one_of_three_failures() {
    assert_eq!(
        captured(true, Some(0), "a".to_owned(), "b".to_owned()),
        Ok(ProcessOutput {
            stdout: "a".to_owned(),
            stderr: "b".to_owned()
        })
    );
    assert_eq!(
        captured(false, None, "a".to_owned(), "b".to_owned()),
        Err(ProcessError::Exited(ProcessFailure {
            exit_code: None,
            stdout: "a".to_owned(),
            stderr: "b".to_owned()
        }))
    );
    assert_eq!(
        start_failure(true, "gone".to_owned()),
        ProcessError::ExecutableNotFound
    );
    assert_eq!(
        start_failure(false, "denied".to_owned()),
        ProcessError::SpawnFailed("denied".to_owned())
    );
    assert_eq!(
        provider_cli_error("Docker", &ProcessError::ExecutableNotFound, "x"),
        "Docker CLI is no longer available"
    );
    assert_eq!(
        provider_cli_error("Docker", &ProcessError::SpawnFailed("denied".to_owned()), "x"),
        "Docker CLI could not be started: denied"
    );
    assert_eq!(provider_cli_error("Docker", &failed(" "), "x"), "x");
}

#[test]
fn docker_is_discovered_with_its_context() {
    let docker = DockerWorkspace;
    assert_eq!(
        docker.discovery_process(),
        ProcessSpec::new("docker", &["context", "show"])
    );
    let found = docker
        .discovered(output("desktop-linux\n", ""))
        .expect("Docker answers");
    assert!(*found.provider().target_environment().expect("a target") == "desktop-linux");
    assert!(found.error().is_none());
    assert!(docker
        .discovered(Err(ProcessError::ExecutableNotFound))
        .is_none());
    let broken = docker
        .discovered(Err(failed("no daemon")))
        .expect("Docker is installed");
    assert!(broken.provider().target_environment().is_none());
    assert_eq!(
        broken.error().map(|error| error.message.as_str()),
        Some(
            "no daemon. Run `docker context show` to verify the selected context and ensure \
             Docker is running."
        )
    );
}

#[test]
fn docker_rows_become_resources() {
    let docker = DockerWorkspace;
    let snapshot = docker
        .refresh(
            &vec![Ok(container("a", "running")), Ok(container("b", "Exited"))],
            &vec![Ok(image("nginx", "1.27")), Ok(image("<none>", "<none>"))],
        )
        .expect("well-formed rows");
    let containers = &snapshot.panels[0];
    assert_eq!(containers.title, "Containers");
    assert_eq!(containers.resources[0].state, Some(ResourceState::Running));
    assert_eq!(containers.resources[1].state, Some(ResourceState::Stopped));
    assert_eq!(
        containers.resources[0].fields,
        vec![
            ("Image", "nginx:1.27".to_owned()),
            ("Status", "Up 2 hours".to_owned())
        ]
    );
    let shell = containers.resources[0].shell.as_ref().expect("a shell");
    assert_eq!(shell.program(), "docker");
    assert_eq!(shell.args(), &vec!["exec", "-it", "a", "/bin/sh"]);
    assert!(containers.resources[1].shell.is_none());
    assert_eq!(
        containers.resources[1].available_commands,
        &[ResourceCommand::Start, ResourceCommand::Delete]
    );
    let images = &snapshot.panels[1];
    assert_eq!(images.resources[0].name, "nginx:1.27");
    assert_eq!(images.resources[1].name, "sha256:1");
    assert!(images.resources[0].available_commands.is_empty());
}

#[test]
fn a_malformed_row_fails_the_refresh() {
    let docker = DockerWorkspace;
    let error = docker
        .refresh(
            &vec![Ok(container("a", "running")), Err("bad row".to_owned())],
            &vec![Err("bad image".to_owned())],
        )
        .expect_err("a malformed row");
    assert_eq!(
        error.message,
        "Docker returned malformed container data: bad row. Run `docker container ls --all` to \
         verify access to the current Target Environment."
    );
    let error = docker
        .refresh(&Vec::new(), &vec![Err("bad image".to_owned())])
        .expect_err("a malformed row");
    assert_eq!(
        error.message,
        "Docker returned malformed image data: bad image. Run `docker image ls` to verify access \
         to the current Target Environment."
    );
}

#[test]
fn a_failed_listing_brings_help_only_where_docker_could_answer() {
    let docker = DockerWorkspace;
    assert_eq!(
        docker.container_failure(&failed("denied")).message,
        "denied. Run `docker container ls --all` to verify access to the current Target \
         Environment."
    );
    assert_eq!(
        docker.image_failure(&ProcessError::ExecutableNotFound).message,
        "Docker CLI is no longer available"
    );
}

#[test]
fn listings_have_one_row_for_each_line_that_holds_one() {
    assert_eq!(
        listing_rows("{\"a\":1}\r\n\n  \n{\"b\":2}"),
        vec!["{\"a\":1}", "{\"b\":2}"]
    );
}

#[test]
fn every_docker_state_is_read() {
    for (text, state) in [
        ("running", ResourceState::Running),
        ("EXITED", ResourceState::Stopped),
        ("created", ResourceState::Stopped),
        ("paused", ResourceState::Paused),
        ("restarting", ResourceState::Transitioning),
        ("removing", ResourceState::Transitioning),
        ("dead", ResourceState::Broken),
        ("confused", ResourceState::Unknown),
    ] {
        assert_eq!(docker_resource_state(text), state);
    }
}

#[test]
fn docker_commands_name_the_container() {
    let docker = DockerWorkspace;
    let it = target("containers", "a");
    let running = Some(ResourceState::Running);
    assert_eq!(
        docker.execute_command(&it, ResourceCommand::Resume, running),
        Ok(ProcessSpec::new("docker", &["container", "unpause", "a"]))
    );
    assert_eq!(
        docker.execute_command(&it, ResourceCommand::Delete, running),
        Ok(ProcessSpec::new(
            "docker",
            &["container", "rm", "--force", "a"]
        ))
    );
    assert_eq!(
        docker.execute_command(&it, ResourceCommand::Delete, Some(ResourceState::Stopped)),
        Ok(ProcessSpec::new("docker", &["container", "rm", "a"]))
    );
    assert!(docker
        .execute_command(&it, ResourceCommand::Delete, None)
        .is_err());
    assert_eq!(
        docker
            .execute_command(&target("images", "a"), ResourceCommand::Stop, running)
            .expect_err("no such command")
            .message,
        "Docker has no stop command for Resource Panel images"
    );
    assert_eq!(
        docker.command_ended(&it, ResourceCommand::Stop, output("", "")),
        Ok(())
    );
    assert!(docker
        .command_ended(&it, ResourceCommand::Stop, Err(failed("no")))
        .is_err());
}

#[test]
fn docker_detail_views_show_both_streams() {
    let docker = DockerWorkspace;
    let it = target("containers", "a");
    let logs = DetailViewId::new("logs");
    assert_eq!(
        docker.load_details(&it, &logs),
        Ok(ProcessSpec::new(
            "docker",
            &["container", "logs", "--tail", "200", "a"]
        ))
    );
    assert_eq!(
        docker
            .load_details(&it, &DetailViewId::new("nope"))
            .expect_err("no such view")
            .message,
        "Docker has no nope view for container a"
    );
    assert_eq!(
        docker
            .details_loaded(&it, &logs, output("one\ntwo\n", "three"))
            .map(|details| details.lines),
        Ok(vec![
            "one".to_owned(),
            "two".to_owned(),
            "three".to_owned()
        ])
    );
    assert_eq!(
        docker
            .details_loaded(&it, &logs, Err(failed("")))
            .expect_err("failed")
            .message,
        "Docker could not load logs for container a"
    );
}

#[test]
fn incus_is_discovered_with_its_remote_and_project() {
    let incus = IncusWorkspace;
    let found = incus
        .discovered(output("local\n", ""), output("default\n", ""))
        .expect("Incus answers");
    assert!(*found.provider().target_environment().expect("a target") == "local / default");
    let broken = incus
        .discovered(output("local", ""), Err(failed("")))
        .expect("Incus is installed");
    assert_eq!(
        broken.error().map(|error| error.message.as_str()),
        Some(
            "Incus could not report the current project. Run `incus project get-current` to \
             verify the selected Target Environment."
        )
    );
    assert!(incus
        .discovered(Err(ProcessError::ExecutableNotFound), output("", ""))
        .is_none());
}

fn instance(status: &str) -> InstanceRow {
    InstanceRow {
        name: "vm".to_owned(),
        status: status.to_owned(),
        instance_type: "container".to_owned(),
        architecture: "x86_64".to_owned(),
        location: "none".to_owned(),
    }
}

#[test]
fn incus_rows_become_resources() {
    let incus = IncusWorkspace;
    let snapshot = incus
        .refresh(&Ok(vec![instance("Running"), instance("Frozen")]))
        .expect("well-formed rows");
    let instances = &snapshot.panels[0].resources;
    let shell = instances[0].shell.as_ref().expect("a shell");
    assert_eq!(shell.args(), &vec!["exec", "vm", "--", "su", "-l"]);
    assert_eq!(instances[1].state, Some(ResourceState::Paused));
    assert_eq!(
        instances[1].available_commands,
        &[ResourceCommand::Resume, ResourceCommand::Delete]
    );
    assert!(incus.refresh(&Err("bad json".to_owned())).is_err());
    assert_eq!(incus_resource_state("Thawing"), ResourceState::Transitioning);
    assert_eq!(incus_resource_state("ERROR"), ResourceState::Broken);
}

#[test]
fn incus_commands_name_the_instance() {
    let incus = IncusWorkspace;
    let it = target("instances", "vm");
    assert_eq!(
        incus.execute_command(&it, ResourceCommand::Delete, Some(ResourceState::Paused)),
        Ok(ProcessSpec::new("incus", &["delete", "--force", "vm"]))
    );
    assert_eq!(
        incus.load_details(&it, &DetailViewId::new("console-log")),
        Ok(ProcessSpec::new("incus", &["console", "--show-log", "vm"]))
    );
    assert_eq!(
        incus
            .load_details(&target("images", "vm"), &DetailViewId::new("info"))
            .expect_err("no such panel")
            .message,
        "Incus has no info view for Resource Panel images"
    );
}

#[test]
fn docker_sandbox_is_not_offered_yet() {
    let sandbox = DockerSandboxWorkspace;
    assert_eq!(
        sandbox.discovery_process(),
        ProcessSpec::new("sbx", &["version"])
    );
    assert!(sandbox.discovered(output("1.0", "")).is_none());
    assert_eq!(
        sandbox.refresh().expect_err("not offered").message,
        "not implemented"
    );
    let it = target("sandboxes", "a");
    assert!(sandbox
        .execute_command(&it, ResourceCommand::Stop, None)
        .is_err());
    assert!(sandbox
        .load_details(&it, &DetailViewId::new("logs"))
        .is_err());
}

#[test]
fn lifecycle_policies_differ_where_restart_and_resume_do() {
    assert_eq!(
        lifecycle_commands(
            ResourceState::Running,
            LifecycleCommandPolicy::RestartAndResume
        ),
        &[
            ResourceCommand::Stop,
            ResourceCommand::Restart,
            ResourceCommand::Delete
        ]
    );
    assert_eq!(
        lifecycle_commands(ResourceState::Running, LifecycleCommandPolicy::StartStop),
        &[ResourceCommand::Stop, ResourceCommand::Delete]
    );
    assert_eq!(
        lifecycle_commands(ResourceState::Paused, LifecycleCommandPolicy::StartStop),
        &[ResourceCommand::Delete]
    );
}

#[test]
fn requests_reach_the_provider_they_name() {
    let runtime = ProviderRuntime::with_builtin_providers();
    assert_eq!(
        runtime.workspaces(),
        &vec![
            BuiltinProvider::Docker,
            BuiltinProvider::Incus,
            BuiltinProvider::DockerSandbox
        ]
    );
    assert_eq!(REFRESH_INTERVAL_MILLIS, 2_000);
    for (id, provider) in [
        ("docker", Some(BuiltinProvider::Docker)),
        ("incus", Some(BuiltinProvider::Incus)),
        ("docker-sandbox", Some(BuiltinProvider::DockerSandbox)),
        ("podman", None),
    ] {
        let request = ProviderRequest::RefreshWorkspace {
            request_id: ProviderRequestId::new(4),
            provider_id: ProviderId::new(id),
        };
        assert_eq!(runtime.dispatch(&request), provider);
    }
}

#[test]
fn discoveries_stay_in_registration_order() {
    let discovery = |id: &str| {
        ProviderDiscovery::new(Provider::new(ProviderId::new(id), id, None, None), None)
    };
    let runtime = ProviderRuntime::with_builtin_providers();
    let found = runtime.discovered(vec![Some(discovery("docker")), None, Some(discovery("x"))]);
    let names: Vec<&str> = found.iter().map(|found| found.provider().name()).collect();
    assert_eq!(names, ["docker", "x"]);
}

#[test]
fn an_outcome_completes_only_its_own_kind_of_request() {
    let load = || ProviderRequest::LoadResourceDetails {
        request_id: ProviderRequestId::new(9),
        provider_id: ProviderId::new("docker"),
        target: target("containers", "a"),
        view_id: DetailViewId::new("logs"),
    };
    let details = ResourceDetails::from_output("x\n");
    match completion(load(), ProviderOutcome::Loaded(Ok(details))) {
        Some(AppEvent::ResourceDetailsCompleted {
            request_id, result, ..
        }) => {
            assert_eq!(request_id, ProviderRequestId::new(9));
            assert_eq!(result.map(|details| details.lines), Ok(vec!["x".to_owned()]));
        }
        _ => panic!("a loaded view completes its load"),
    }
    assert!(completion(load(), ProviderOutcome::Commanded(Ok(()))).is_none());
    let refreshed: Result<WorkspaceSnapshot, WorkspaceError> = Err(WorkspaceError::new("x"));
    assert!(completion(load(), ProviderOutcome::Refreshed(refreshed)).is_none());
}
