//! Where files are looked for, what is read of them, and who answers whom.

use vstd::prelude::*;

use super::config::{
    compiled, discovery, load_problem_text, problem_lines, raw_configuration, selected_file,
    unread_file, ConfigurationModel, EnvModel, LoadProblem, RawModel, SelectionModel,
};
use super::pane_boundary_state::{preference_path, restored, saved_text, StateEnvModel};
use super::paths::joined_path;
use super::process::{
    exit_of, failure_message, start_error, FailureModel, OutputModel, ProcessErrorModel,
};
use super::provider::{DiscoveryModel, ProviderDiscovery};
use super::runtime::{
    addressee, builtin_id, completion_of, first_named, found, registration_order,
    REFRESH_INTERVAL_MILLIS, BuiltinProvider, ProviderOutcome,
};
use crate::application::app::model::EventModel;
use crate::application::command::defaults::builtin_commands;
use crate::application::command::{configured, ResourceCommand};
use crate::application::key::{Key, KeyCode};
use crate::application::keybinding::{problem_text, KeybindingProblem};
use crate::application::pane_boundary::BoundaryModel;
use crate::application::provider::{ProviderRequestId, RequestModel};
use crate::application::resource_shell_controls::{configured_controls, ControlsModel};
use crate::domain::{ResourceState, TargetModel};
use crate::host::dispatch::DETAIL_DISPATCH_QUIET_PERIOD_MILLIS;
use crate::text::{decimal, trimmed};

verus! {

proof fn lemma_below(base: Seq<char>, first: Seq<char>, second: Seq<char>)
    requires
        base.len() > 0,
        base.last() != '/',
        first.len() > 0,
        first.last() != '/',
    ensures
        super::paths::joined_path(super::paths::joined_path(base, first), second) == base + "/"@
            + first + "/"@ + second,
{
    let middle = base + "/"@ + first;
    assert(middle.last() == first.last());
}

/// The configuration file is looked for below the configuration directory, and
/// below the home directory where none is named. One that is named has to be
/// named in full.
pub proof fn law_the_configuration_is_looked_for(
    env: EnvModel,
    path: Seq<char>,
    xdg: Seq<char>,
    home: Seq<char>,
)
    ensures
        env.config_file == Some(path) && (path.len() == 0 || path[0] != '/') ==> selected_file(
            env,
        ) == Err::<Option<SelectionModel>, LoadProblem>(LoadProblem::ExplicitNotAbsolute { path }),
        env.config_file is None && env.xdg_config_home == Some(xdg) && xdg.len() > 0 && xdg[0]
            == '/' && xdg.last() != '/' ==> selected_file(env) == Ok::<
            Option<SelectionModel>,
            LoadProblem,
        >(
            Some(
                SelectionModel {
                    path: xdg + "/"@ + "tuivir"@ + "/"@ + "config.toml"@,
                    explicit: false,
                },
            ),
        ),
        env.config_file is None && env.xdg_config_home == Some(xdg) && xdg.len() > 0 && xdg[0]
            != '/' ==> selected_file(env) == Err::<Option<SelectionModel>, LoadProblem>(
            LoadProblem::XdgNotAbsolute { path: xdg },
        ),
        env.config_file is None && (env.xdg_config_home is None || env.xdg_config_home == Some(
            Seq::<char>::empty(),
        )) && env.home == Some(home) && home.len() > 0 && home.last() != '/' ==> selected_file(env)
            == Ok::<Option<SelectionModel>, LoadProblem>(
            Some(
                SelectionModel {
                    path: home + "/"@ + ".config"@ + "/"@ + "tuivir"@ + "/"@ + "config.toml"@,
                    explicit: false,
                },
            ),
        ),
        env.config_file is None && env.xdg_config_home is None && env.home is None
            ==> selected_file(env) == Ok::<Option<SelectionModel>, LoadProblem>(None),
{
    reveal_strlit("tuivir");
    reveal_strlit(".config");
    reveal_strlit("/");
    if xdg.len() > 0 && xdg.last() != '/' {
        lemma_below(xdg, "tuivir"@, "config.toml"@);
    }
    if home.len() > 0 && home.last() != '/' {
        lemma_below(home, ".config"@, "tuivir"@);
        let base = home + "/"@ + ".config"@;
        assert(base.last() == 'g');
        assert(super::paths::joined_path(home, ".config"@) == base);
        lemma_below(base, "tuivir"@, "config.toml"@);
    }
}

/// A discovered file that is not there means the compiled defaults; one that
/// was named, or that cannot be read, is an error.
pub proof fn law_only_a_discovered_file_may_be_missing(path: Seq<char>, explicit: bool)
    ensures
        unread_file(SelectionModel { path, explicit: false }, true) == Ok::<
            ConfigurationModel,
            LoadProblem,
        >(compiled()),
        unread_file(SelectionModel { path, explicit: true }, true) == Err::<
            ConfigurationModel,
            LoadProblem,
        >(LoadProblem::ExplicitMissing { path }),
        unread_file(SelectionModel { path, explicit }, false) == Err::<
            ConfigurationModel,
            LoadProblem,
        >(LoadProblem::Unreadable { path }),
        compiled().registry == builtin_commands(),
        compiled().controls == (ControlsModel {
            prefix: Key { code: KeyCode::Character('t'), ctrl: true, alt: false },
            focus_tuivir: seq![Key { code: KeyCode::Character('q'), ctrl: false, alt: false }],
            toggle_zoom: seq![Key { code: KeyCode::Character('z'), ctrl: false, alt: false }],
        }),
{
}

/// A file without a problem is applied, its bindings and its controls; a
/// problem is reported with the file it is in.
pub proof fn law_a_valid_file_is_applied(path: Seq<char>, raw: RawModel)
    ensures
        raw_configuration(path, raw) matches Ok(configuration) ==> configuration.registry
            == configured(raw.keybindings) && configuration.controls == configured_controls(
            raw.shell_prefix,
            raw.shell_keybindings,
        ),
        raw_configuration(path, raw) matches Err(problem) ==> (problem matches LoadProblem::Invalid {
            path: reported,
            errors,
        } && reported == path && errors.len() > 0),
{
}

/// What is wrong with a configuration is reported with the path it is about,
/// and the problems of a file one to a line below it.
pub proof fn law_configuration_problems_are_reported(
    path: Seq<char>,
    message: Seq<char>,
    errors: Seq<KeybindingProblem>,
    error: KeybindingProblem,
)
    ensures
        load_problem_text(LoadProblem::ExplicitNotAbsolute { path })
            == "TUIVIR_CONFIG_FILE must be an absolute path, not "@ + path,
        load_problem_text(LoadProblem::XdgNotAbsolute { path })
            == "XDG_CONFIG_HOME must be an absolute path, not "@ + path,
        load_problem_text(LoadProblem::ExplicitMissing { path })
            == "Configuration file does not exist: "@ + path,
        load_problem_text(LoadProblem::Unreadable { path })
            == "Configuration file could not be read: "@ + path,
        load_problem_text(LoadProblem::Unparsable { path, message }) == "Could not parse "@ + path
            + ": "@ + message,
        load_problem_text(LoadProblem::Invalid { path, errors: Seq::empty() })
            == "Invalid configuration in "@ + path + ":"@,
        load_problem_text(LoadProblem::Invalid { path, errors: errors.push(error) })
            == load_problem_text(LoadProblem::Invalid { path, errors }) + "\n  "@ + problem_text(
            error,
        ),
{
    assert(errors.push(error).drop_last() =~= errors);
    let heading = "Invalid configuration in "@ + path + ":"@;
    assert(heading + problem_lines(Seq::empty()) =~= heading);
    assert(heading + problem_lines(errors.push(error)) =~= heading + problem_lines(errors)
        + "\n  "@ + problem_text(error));
}

/// The share of the Panes is kept below the state directory, or below the home
/// directory where none is named in full.
pub proof fn law_the_share_is_kept_in_the_state_directory(
    env: StateEnvModel,
    xdg: Seq<char>,
    home: Seq<char>,
)
    ensures
        env.xdg_state_home == Some(xdg) && xdg.len() > 0 && xdg[0] == '/' && xdg.last() != '/'
            ==> preference_path(env) == Some(
            xdg + "/"@ + "tuivir"@ + "/"@ + "pane-boundary.json"@,
        ),
        (env.xdg_state_home is None || env.xdg_state_home == Some(xdg) && (xdg.len() == 0 || xdg[0]
            != '/')) && env.home == Some(home) && home.len() > 0 && home.last() != '/'
            ==> preference_path(env) == Some(
            home + "/"@ + ".local/state"@ + "/"@ + "tuivir"@ + "/"@ + "pane-boundary.json"@,
        ),
        env.xdg_state_home is None && env.home is None ==> preference_path(env) is None,
{
    reveal_strlit("tuivir");
    reveal_strlit(".local/state");
    reveal_strlit("/");
    if xdg.len() > 0 && xdg.last() != '/' {
        lemma_below(xdg, "tuivir"@, "pane-boundary.json"@);
    }
    if home.len() > 0 && home.last() != '/' {
        let base = home + "/"@ + ".local/state"@;
        assert(base.last() == 'e');
        assert(super::paths::joined_path(home, ".local/state"@) == base);
        lemma_below(base, "tuivir"@, "pane-boundary.json"@);
    }
}

/// A share is written as a number under its name, and one that leaves both
/// Panes usable is taken up again; anything else is the first run's.
pub proof fn law_a_share_is_written_and_read(percent: u16, grab: Option<u16>)
    ensures
        saved_text(BoundaryModel { percent: percent as int, grab }) == "{\"resources_percent\":"@
            + decimal(percent as nat) + "}"@,
        25 <= percent <= 75 ==> restored(Some(percent)) == (BoundaryModel {
            percent: percent as int,
            grab: None,
        }),
        percent < 25 || percent > 75 ==> restored(Some(percent)) == (BoundaryModel {
            percent: 48,
            grab: None,
        }),
        restored(None) == (BoundaryModel { percent: 48, grab: None }),
{
}

/// A failed process is quoted by what it wrote: of its errors, or else of its
/// output, or else as the caller puts it.
pub proof fn law_a_failed_process_is_quoted(failure: FailureModel, fallback: Seq<char>)
    ensures
        trimmed(failure.stderr).len() > 0 ==> failure_message(failure, fallback) == trimmed(
            failure.stderr,
        ),
        trimmed(failure.stderr).len() == 0 && trimmed(failure.stdout).len() > 0 ==> failure_message(
            failure,
            fallback,
        ) == trimmed(failure.stdout),
        trimmed(failure.stderr).len() == 0 && trimmed(failure.stdout).len() == 0
            ==> failure_message(failure, fallback) == fallback,
{
}

/// The Providers are Docker, Incus and Docker Sandbox, in this order and by
/// these names, and a request goes to the one it names.
pub proof fn law_requests_go_to_the_provider_they_name(
    request_id: ProviderRequestId,
    provider_id: Seq<char>,
    target: TargetModel,
    command: ResourceCommand,
    state: Option<ResourceState>,
    view_id: Seq<char>,
)
    ensures
        registration_order() == seq![
            BuiltinProvider::Docker,
            BuiltinProvider::Incus,
            BuiltinProvider::DockerSandbox,
        ],
        builtin_id(BuiltinProvider::Docker) == "docker"@,
        builtin_id(BuiltinProvider::Incus) == "incus"@,
        builtin_id(BuiltinProvider::DockerSandbox) == "docker-sandbox"@,
        addressee(RequestModel::RefreshWorkspace { request_id, provider_id }) == provider_id,
        addressee(
            RequestModel::ExecuteResourceCommand { request_id, provider_id, target, command, state },
        ) == provider_id,
        addressee(
            RequestModel::LoadResourceDetails { request_id, provider_id, target, view_id },
        ) == provider_id,
{
}

/// The first Provider of a name answers to it.
pub proof fn law_the_first_of_a_name_answers(
    providers: Seq<BuiltinProvider>,
    id: Seq<char>,
    i: int,
)
    requires
        0 <= i < providers.len(),
        builtin_id(providers[i]) == id,
        forall|j: int| 0 <= j < i ==> builtin_id(#[trigger] providers[j]) != id,
    ensures
        first_named(providers, id) == Some(providers[i]),
    decreases i,
{
    if i > 0 {
        assert(builtin_id(providers[0]) != id);
        let rest = providers.drop_first();
        assert(rest[i - 1] == providers[i]);
        assert forall|j: int| 0 <= j < i - 1 implies builtin_id(#[trigger] rest[j]) != id by {
            assert(rest[j] == providers[j + 1]);
        }
        law_the_first_of_a_name_answers(rest, id, i - 1);
    }
}

/// An answer goes to what asked for it: same request, same Provider, same
/// Resource, same operation or view.
pub proof fn law_an_answer_names_its_request(request: RequestModel, outcome: ProviderOutcome)
    ensures
        completion_of(request, outcome) matches Some(EventModel::RefreshCompleted {
            request_id,
            provider_id,
            ..
        }) ==> request == (RequestModel::RefreshWorkspace { request_id, provider_id }),
        completion_of(request, outcome) matches Some(EventModel::ResourceCommandCompleted {
            request_id,
            provider_id,
            target,
            command,
            ..
        }) ==> (request matches RequestModel::ExecuteResourceCommand {
            request_id: asked,
            provider_id: provider,
            target: resource,
            command: operation,
            ..
        } && asked == request_id && provider == provider_id && resource == target && operation
            == command),
        completion_of(request, outcome) matches Some(EventModel::ResourceDetailsCompleted {
            request_id,
            provider_id,
            target,
            view_id,
            ..
        }) ==> request == (RequestModel::LoadResourceDetails {
            request_id,
            provider_id,
            target,
            view_id,
        }),
        request is RefreshWorkspace && outcome is Refreshed ==> completion_of(
            request,
            outcome,
        ) matches Some(EventModel::RefreshCompleted { .. }),
        request is ExecuteResourceCommand && outcome is Commanded ==> completion_of(
            request,
            outcome,
        ) matches Some(EventModel::ResourceCommandCompleted { .. }),
        request is LoadResourceDetails && outcome is Loaded ==> completion_of(
            request,
            outcome,
        ) matches Some(EventModel::ResourceDetailsCompleted { .. }),
{
}

/// The Providers that were found are reported in the order they were asked.
pub proof fn law_discoveries_keep_their_order(
    slots: Seq<Option<ProviderDiscovery>>,
    discovery: ProviderDiscovery,
)
    ensures
        found(Seq::empty()) == Seq::<DiscoveryModel>::empty(),
        found(slots.push(Some(discovery))) == found(slots).push(discovery@),
        found(slots.push(None)) == found(slots),
{
    assert(slots.push(Some(discovery)).drop_last() =~= slots);
    assert(slots.push(None).drop_last() =~= slots);
}

/// A Workspace is refreshed every two seconds, and a Detail View is loaded once
/// the selection has rested for seventy-five milliseconds.
pub proof fn law_the_clock_ticks_as_it_should()
    ensures
        REFRESH_INTERVAL_MILLIS == 2000,
        DETAIL_DISPATCH_QUIET_PERIOD_MILLIS == 75,
{
}

/// A process that succeeded leaves what it wrote; one that failed leaves that
/// and its status; one that did not start leaves why, an absent program apart.
pub proof fn law_a_process_ends_one_way(
    exit_code: Option<i32>,
    stdout: Seq<char>,
    stderr: Seq<char>,
    reason: Seq<char>,
)
    ensures
        exit_of(true, exit_code, stdout, stderr) == Ok::<OutputModel, ProcessErrorModel>(
            OutputModel { stdout, stderr },
        ),
        exit_of(false, exit_code, stdout, stderr) == Err::<OutputModel, ProcessErrorModel>(
            ProcessErrorModel::Exited(FailureModel { exit_code, stdout, stderr }),
        ),
        start_error(true, reason) == ProcessErrorModel::ExecutableNotFound,
        start_error(false, reason) == ProcessErrorModel::SpawnFailed(reason),
{
}

/// A path below a directory is parted from it by one slash.
pub proof fn law_paths_are_parted_by_one_slash(base: Seq<char>, part: Seq<char>)
    ensures
        base.len() > 0 && base.last() != '/' ==> joined_path(base, part) == base + "/"@ + part,
        base.len() > 0 && base.last() == '/' ==> joined_path(base, part) == base + part,
{
}

} // verus!
