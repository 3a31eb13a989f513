//! Which configuration file applies, and what it makes of the Keybindings.

use vstd::prelude::*;
use vstd::string::*;

use super::paths::{absolute, is_absolute, join, joined_path};
use crate::application::command::defaults::builtin_commands;
use crate::application::command::{
    configuration_problems, configured, overrides_view, CommandModel, CommandRegistry,
};
use crate::application::keybinding::{problem_text, KeybindingError, KeybindingProblem};
use crate::application::resource_shell_controls::{
    configured_controls, default_controls, shell_configuration_problems, ControlsModel,
    ResourceShellControls,
};
use crate::text::{blank, is_blank, opt_view, views};

verus! {

/// The environment Tuivir consults to discover its configuration file.
///
/// Real startup builds this from `TUIVIR_CONFIG_FILE`, `XDG_CONFIG_HOME`, and
/// `HOME`; tests inject it so they never depend on a real home directory.
#[derive(Debug, PartialEq, Eq)]
pub struct Env {
    /// `TUIVIR_CONFIG_FILE`: one absolute file, with highest precedence.
    pub config_file: Option<String>,
    /// `$XDG_CONFIG_HOME`: only consulted when it is absolute.
    pub xdg_config_home: Option<String>,
    /// `$HOME`: the base for the `~/.config` fallback.
    pub home: Option<String>,
}

#[verifier::ext_equal]
pub struct EnvModel {
    pub config_file: Option<Seq<char>>,
    pub xdg_config_home: Option<Seq<char>>,
    pub home: Option<Seq<char>>,
}

impl View for Env {
    type V = EnvModel;

    open spec fn view(&self) -> EnvModel {
        EnvModel {
            config_file: opt_view(self.config_file),
            xdg_config_home: opt_view(self.xdg_config_home),
            home: opt_view(self.home),
        }
    }
}

/// Why a configuration file could not be loaded as an effective registry.
///
/// A missing *discovered* file is not an error, it means compiled defaults, so
/// it never appears here.
#[derive(Debug, PartialEq, Eq)]
pub enum LoadError {
    /// `TUIVIR_CONFIG_FILE` names a path that is not absolute.
    ExplicitNotAbsolute { path: String },
    /// `XDG_CONFIG_HOME` is set to a path that is not absolute.
    XdgNotAbsolute { path: String },
    /// The explicitly selected file does not exist.
    ExplicitMissing { path: String },
    /// The selected file exists but could not be read.
    Unreadable { path: String },
    /// The file could not be parsed as the configuration format.
    Unparsable { path: String, message: String },
    /// The file parsed, but its keybindings were rejected.
    Invalid { path: String, errors: Vec<KeybindingError> },
}

/// What a [`LoadError`] reports.
#[verifier::ext_equal]
pub enum LoadProblem {
    ExplicitNotAbsolute { path: Seq<char> },
    XdgNotAbsolute { path: Seq<char> },
    ExplicitMissing { path: Seq<char> },
    Unreadable { path: Seq<char> },
    Unparsable { path: Seq<char>, message: Seq<char> },
    Invalid { path: Seq<char>, errors: Seq<KeybindingProblem> },
}

impl View for LoadError {
    type V = LoadProblem;

    open spec fn view(&self) -> LoadProblem {
        match self {
            LoadError::ExplicitNotAbsolute { path } => LoadProblem::ExplicitNotAbsolute {
                path: path@,
            },
            LoadError::XdgNotAbsolute { path } => LoadProblem::XdgNotAbsolute { path: path@ },
            LoadError::ExplicitMissing { path } => LoadProblem::ExplicitMissing { path: path@ },
            LoadError::Unreadable { path } => LoadProblem::Unreadable { path: path@ },
            LoadError::Unparsable { path, message } => LoadProblem::Unparsable {
                path: path@,
                message: message@,
            },
            LoadError::Invalid { path, errors } => LoadProblem::Invalid {
                path: path@,
                errors: views(errors@),
            },
        }
    }
}

/// One indented line for each problem.
pub open spec fn problem_lines(problems: Seq<KeybindingProblem>) -> Seq<char>
    decreases problems.len(),
{
    if problems.len() == 0 {
        Seq::empty()
    } else {
        problem_lines(problems.drop_last()) + "\n  "@ + problem_text(problems.last())
    }
}

/// The text that reports a problem at startup.
pub open spec fn load_problem_text(problem: LoadProblem) -> Seq<char> {
    match problem {
        LoadProblem::ExplicitNotAbsolute {
            path,
        } => "TUIVIR_CONFIG_FILE must be an absolute path, not "@ + path,
        LoadProblem::XdgNotAbsolute { path } => "XDG_CONFIG_HOME must be an absolute path, not "@
            + path,
        LoadProblem::ExplicitMissing { path } => "Configuration file does not exist: "@ + path,
        LoadProblem::Unreadable { path } => "Configuration file could not be read: "@ + path,
        LoadProblem::Unparsable { path, message } => "Could not parse "@ + path + ": "@ + message,
        LoadProblem::Invalid { path, errors } => "Invalid configuration in "@ + path + ":"@
            + problem_lines(errors),
    }
}

impl LoadError {
    /// The text that reports the error at startup.
    pub fn to_string(&self) -> (text: String)
        ensures
            text@ == load_problem_text(self@),
    {
        match self {
            LoadError::ExplicitNotAbsolute { path } => {
                let mut text = "TUIVIR_CONFIG_FILE must be an absolute path, not ".to_owned();
                text.append(path.as_str());
                text
            },
            LoadError::XdgNotAbsolute { path } => {
                let mut text = "XDG_CONFIG_HOME must be an absolute path, not ".to_owned();
                text.append(path.as_str());
                text
            },
            LoadError::ExplicitMissing { path } => {
                let mut text = "Configuration file does not exist: ".to_owned();
                text.append(path.as_str());
                text
            },
            LoadError::Unreadable { path } => {
                let mut text = "Configuration file could not be read: ".to_owned();
                text.append(path.as_str());
                text
            },
            LoadError::Unparsable { path, message } => {
                let mut text = "Could not parse ".to_owned();
                text.append(path.as_str());
                text.append(": ");
                text.append(message.as_str());
                text
            },
            LoadError::Invalid { path, errors } => {
                let mut text = "Invalid configuration in ".to_owned();
                text.append(path.as_str());
                text.append(":");
                let ghost heading = text@;
                let ghost all = views(errors@);
                let mut i: usize = 0;
                assert(text@ =~= heading + Seq::<char>::empty());
                while i < errors.len()
                    invariant
                        i <= errors.len(),
                        all == views(errors@),
                        text@ == heading + problem_lines(all.take(i as int)),
                    decreases errors.len() - i,
                {
                    let error = errors[i].to_string();
                    text.append("\n  ");
                    text.append(error.as_str());
                    proof {
                        assert(all.take(i + 1).drop_last() =~= all.take(i as int));
                        assert(all.take(i + 1).last() == errors@[i as int]@);
                        assert(text@ =~= heading + problem_lines(all.take(i + 1)));
                    }
                    i = i + 1;
                }
                assert(all.take(i as int) =~= all);
                text
            },
        }
    }
}

/// Where the file lies below a configuration directory.
pub open spec fn config_below(directory: Seq<char>) -> Seq<char> {
    joined_path(joined_path(directory, "tuivir"@), "config.toml"@)
}

/// The one path that is discovered where none is selected explicitly.
///
/// An exported-but-empty variable is a shell's way of saying "unset", which the
/// process environment cannot distinguish, so it selects nothing rather than
/// naming a relative path. A set-but-relative `XDG_CONFIG_HOME` is fatal rather
/// than ignored: it names no single file, and silently reading a different one
/// would apply bindings the user never selected.
pub open spec fn discovery(env: EnvModel) -> Result<Option<Seq<char>>, LoadProblem> {
    match env.xdg_config_home {
        Some(xdg) => if xdg.len() == 0 {
            Ok(home_config(env))
        } else if is_absolute(xdg) {
            Ok(Some(config_below(xdg)))
        } else {
            Err(LoadProblem::XdgNotAbsolute { path: xdg })
        },
        None => Ok(home_config(env)),
    }
}

/// The path below the home directory.
pub open spec fn home_config(env: EnvModel) -> Option<Seq<char>> {
    match env.home {
        Some(home) => Some(config_below(joined_path(home, ".config"@))),
        None => None,
    }
}

/// The file to read, and whether the user selected it explicitly.
#[derive(Debug, PartialEq, Eq)]
pub struct Selection {
    pub path: String,
    pub explicit: bool,
}

#[verifier::ext_equal]
pub struct SelectionModel {
    pub path: Seq<char>,
    pub explicit: bool,
}

impl View for Selection {
    type V = SelectionModel;

    open spec fn view(&self) -> SelectionModel {
        SelectionModel { path: self.path@, explicit: self.explicit }
    }
}

/// The file that an environment selects: an explicit file always wins and must
/// be absolute; a discovered file is optional.
pub open spec fn selected_file(env: EnvModel) -> Result<Option<SelectionModel>, LoadProblem> {
    match env.config_file {
        Some(path) => if is_absolute(path) {
            Ok(Some(SelectionModel { path, explicit: true }))
        } else {
            Err(LoadProblem::ExplicitNotAbsolute { path })
        },
        None => match discovery(env) {
            Ok(Some(path)) => Ok(Some(SelectionModel { path, explicit: false })),
            Ok(None) => Ok(None),
            Err(problem) => Err(problem),
        },
    }
}

pub open spec fn selection_result(result: Result<Option<Selection>, LoadError>) -> Result<
    Option<SelectionModel>,
    LoadProblem,
> {
    match result {
        Ok(selection) => Ok(opt_view(selection)),
        Err(error) => Err(error@),
    }
}

pub open spec fn path_result(result: Result<Option<String>, LoadError>) -> Result<
    Option<Seq<char>>,
    LoadProblem,
> {
    match result {
        Ok(path) => Ok(opt_view(path)),
        Err(error) => Err(error@),
    }
}

/// Selects exactly one discovered path, or `None` when neither
/// `XDG_CONFIG_HOME` nor `HOME` names a directory.
fn discovered_path(env: &Env) -> (result: Result<Option<String>, LoadError>)
    ensures
        path_result(result) == discovery(env@),
{
    match &env.xdg_config_home {
        Some(xdg) => {
            if !xdg.as_str().is_empty() {
                if !absolute(xdg.as_str()) {
                    return Err(LoadError::XdgNotAbsolute { path: xdg.clone() });
                }
                let directory = join(xdg.as_str(), "tuivir");
                return Ok(Some(join(directory.as_str(), "config.toml")));
            }
        },
        None => {},
    }
    match &env.home {
        Some(home) => {
            let config = join(home.as_str(), ".config");
            let directory = join(config.as_str(), "tuivir");
            Ok(Some(join(directory.as_str(), "config.toml")))
        },
        None => Ok(None),
    }
}

/// The effective Keybindings of a run.
#[derive(Debug)]
pub struct Configuration {
    pub registry: CommandRegistry,
    pub controls: ResourceShellControls,
}

#[verifier::ext_equal]
pub struct ConfigurationModel {
    pub registry: Seq<CommandModel>,
    pub controls: ControlsModel,
}

impl View for Configuration {
    type V = ConfigurationModel;

    open spec fn view(&self) -> ConfigurationModel {
        ConfigurationModel { registry: self.registry@, controls: self.controls@ }
    }
}

/// The compiled Keybindings.
pub open spec fn compiled() -> ConfigurationModel {
    ConfigurationModel { registry: builtin_commands(), controls: default_controls() }
}

/// The bindings that a file holds, as they were parsed.
#[derive(Debug, PartialEq, Eq)]
pub struct RawConfig {
    /// The `[keybindings]` table.
    pub keybindings: Vec<(String, Vec<String>)>,
    /// The Shell Prefix of the `[resource_shell]` table.
    pub shell_prefix: Option<String>,
    /// The `[resource_shell.keybindings]` table.
    pub shell_keybindings: Vec<(String, Vec<String>)>,
}

#[verifier::ext_equal]
pub struct RawModel {
    pub keybindings: Seq<(Seq<char>, Seq<Seq<char>>)>,
    pub shell_prefix: Option<Seq<char>>,
    pub shell_keybindings: Seq<(Seq<char>, Seq<Seq<char>>)>,
}

impl View for RawConfig {
    type V = RawModel;

    open spec fn view(&self) -> RawModel {
        RawModel {
            keybindings: overrides_view(self.keybindings@),
            shell_prefix: opt_view(self.shell_prefix),
            shell_keybindings: overrides_view(self.shell_keybindings@),
        }
    }
}

/// Everything wrong with a file's bindings.
pub open spec fn raw_problems(raw: RawModel) -> Seq<KeybindingProblem> {
    configuration_problems(raw.keybindings) + shell_configuration_problems(
        raw.shell_prefix,
        raw.shell_keybindings,
    )
}

/// What a file's bindings amount to. Nothing is applied unless everything
/// validates.
pub open spec fn raw_configuration(path: Seq<char>, raw: RawModel) -> Result<
    ConfigurationModel,
    LoadProblem,
> {
    if raw_problems(raw).len() == 0 {
        Ok(
            ConfigurationModel {
                registry: configured(raw.keybindings),
                controls: configured_controls(raw.shell_prefix, raw.shell_keybindings),
            },
        )
    } else {
        Err(LoadProblem::Invalid { path, errors: raw_problems(raw) })
    }
}

pub open spec fn configuration_result(result: Result<Configuration, LoadError>) -> Result<
    ConfigurationModel,
    LoadProblem,
> {
    match result {
        Ok(configuration) => Ok(configuration@),
        Err(error) => Err(error@),
    }
}

impl Env {
    /// The file to read, or none where the compiled defaults apply.
    pub fn select(&self) -> (result: Result<Option<Selection>, LoadError>)
        ensures
            selection_result(result) == selected_file(self@),
    {
        match &self.config_file {
            Some(path) => {
                if !absolute(path.as_str()) {
                    return Err(LoadError::ExplicitNotAbsolute { path: path.clone() });
                }
                Ok(Some(Selection { path: path.clone(), explicit: true }))
            },
            None => match discovered_path(self) {
                Ok(Some(path)) => Ok(Some(Selection { path, explicit: false })),
                Ok(None) => Ok(None),
                Err(error) => Err(error),
            },
        }
    }
}

impl Default for Configuration {
    fn default() -> (configuration: Self)
        ensures
            configuration@ == compiled(),
    {
        Configuration {
            registry: CommandRegistry::builtin(),
            controls: ResourceShellControls::default(),
        }
    }
}

/// What a file that could not be read means: the compiled defaults where a
/// discovered one is missing, and otherwise why there is no configuration.
pub open spec fn unread_file(selection: SelectionModel, missing: bool) -> Result<
    ConfigurationModel,
    LoadProblem,
> {
    if !missing {
        Err(LoadProblem::Unreadable { path: selection.path })
    } else if selection.explicit {
        Err(LoadProblem::ExplicitMissing { path: selection.path })
    } else {
        Ok(compiled())
    }
}

impl Selection {
    /// What a file that could not be read means.
    ///
    /// A missing discovered file means compiled defaults, and Tuivir creates
    /// nothing and searches no project directory.
    pub fn unread(self, missing: bool) -> (result: Result<Configuration, LoadError>)
        ensures
            configuration_result(result) == unread_file(self@, missing),
    {
        if !missing {
            return Err(LoadError::Unreadable { path: self.path });
        }
        if self.explicit {
            return Err(LoadError::ExplicitMissing { path: self.path });
        }
        Ok(Configuration::default())
    }

    /// Whether a file says nothing, so that the compiled defaults apply.
    pub fn says_nothing(&self, contents: &str) -> (answer: bool)
        ensures
            answer == is_blank(contents@),
    {
        blank(contents)
    }

    /// What a file that could not be parsed means.
    pub fn unparsable(self, message: String) -> (error: LoadError)
        ensures
            error@ == (LoadProblem::Unparsable { path: self@.path, message: message@ }),
    {
        LoadError::Unparsable { path: self.path, message }
    }

    /// What a file's bindings amount to.
    pub fn configure(self, raw: RawConfig) -> (result: Result<Configuration, LoadError>)
        ensures
            configuration_result(result) == raw_configuration(self@.path, raw@),
    {
        let ghost first = configuration_problems(raw@.keybindings);
        let ghost second = shell_configuration_problems(raw@.shell_prefix, raw@.shell_keybindings);
        let registry = CommandRegistry::effective(&raw.keybindings);
        let controls = ResourceShellControls::effective(raw.shell_prefix, raw.shell_keybindings);
        proof {
            assert(first + second =~= raw_problems(raw@));
            assert(registry is Err ==> registry_problems(registry) == first);
            assert(registry is Ok ==> first =~= Seq::<KeybindingProblem>::empty());
            assert(controls is Err ==> controls_problems(controls) == second);
            assert(controls is Ok ==> second =~= Seq::<KeybindingProblem>::empty());
        }
        whole(self.path, registry, controls)
    }
}

spec fn registry_problems(registry: Result<CommandRegistry, Vec<KeybindingError>>) -> Seq<
    KeybindingProblem,
> {
    match registry {
        Ok(_) => Seq::empty(),
        Err(errors) => views(errors@),
    }
}

spec fn controls_problems(controls: Result<ResourceShellControls, Vec<KeybindingError>>) -> Seq<
    KeybindingProblem,
> {
    match controls {
        Ok(_) => Seq::empty(),
        Err(errors) => views(errors@),
    }
}

/// Both halves of a configuration, or the problems of both.
fn whole(
    path: String,
    registry: Result<CommandRegistry, Vec<KeybindingError>>,
    controls: Result<ResourceShellControls, Vec<KeybindingError>>,
) -> (result: Result<Configuration, LoadError>)
    ensures
        configuration_result(result) == (match (registry, controls) {
            (Ok(registry), Ok(controls)) => Ok::<ConfigurationModel, LoadProblem>(
                ConfigurationModel { registry: registry@, controls: controls@ },
            ),
            _ => Err(
                LoadProblem::Invalid {
                    path: path@,
                    errors: registry_problems(registry) + controls_problems(controls),
                },
            ),
        }),
{
    match (registry, controls) {
        (Ok(registry), Ok(controls)) => Ok(Configuration { registry, controls }),
        (Ok(_), Err(errors)) => {
            assert(views(errors@) =~= Seq::<KeybindingProblem>::empty() + views(errors@));
            Err(LoadError::Invalid { path, errors })
        },
        (Err(errors), Ok(_)) => {
            assert(views(errors@) =~= views(errors@) + Seq::<KeybindingProblem>::empty());
            Err(LoadError::Invalid { path, errors })
        },
        (Err(errors), Err(more)) => {
            let mut errors = errors;
            let mut more = more;
            let ghost first = views(errors@);
            let ghost second = views(more@);
            errors.append(&mut more);
            assert(views(errors@) =~= first + second);
            Err(LoadError::Invalid { path, errors })
        },
    }
}

/// An explicit file always wins, whatever else the environment says.
pub proof fn law_an_explicit_file_wins(env: EnvModel, path: Seq<char>)
    requires
        env.config_file == Some(path),
        is_absolute(path),
    ensures
        selected_file(env) == Ok::<Option<SelectionModel>, LoadProblem>(
            Some(SelectionModel { path, explicit: true }),
        ),
{
}

/// A file is applied whole or not at all.
pub proof fn law_nothing_is_applied_of_an_invalid_file(path: Seq<char>, raw: RawModel)
    ensures
        raw_configuration(path, raw) is Ok <==> configuration_problems(raw.keybindings).len() == 0
            && shell_configuration_problems(raw.shell_prefix, raw.shell_keybindings).len() == 0,
{
}

} // verus!
