//! Keys, Commands, and what configuration makes of them.

use tuivir::application::{
    Command, CommandRegistry, CommandScope, Key, KeyCode, KeybindingError, Named, ResourceCommand,
    ResourceShellControls, NUMBERED_RESOURCE_PANEL_CAPACITY,
};
use tuivir::infrastructure::config::{Configuration, Env, LoadError, RawConfig, Selection};

fn binding(id: &str, keys: &[&str]) -> (String, Vec<String>) {
    (
        id.to_owned(),
        keys.iter().map(|key| (*key).to_owned()).collect(),
    )
}

fn errors(overrides: &[(&str, &[&str])]) -> Vec<String> {
    let overrides = overrides
        .iter()
        .map(|(id, keys)| binding(id, keys))
        .collect::<Vec<_>>();
    match CommandRegistry::effective(&overrides) {
        Ok(_) => Vec::new(),
        Err(errors) => errors.iter().map(KeybindingError::to_string).collect(),
    }
}

fn registry(overrides: &[(&str, &[&str])]) -> CommandRegistry {
    let overrides = overrides
        .iter()
        .map(|(id, keys)| binding(id, keys))
        .collect::<Vec<_>>();
    CommandRegistry::effective(&overrides).expect("valid bindings")
}

#[test]
fn keys_are_spelled_the_way_they_are_shown() {
    for text in [
        "q", "J", "?", "ctrl+r", "alt+x", "ctrl+alt+k", "space", "enter", "pagedown", "f1", "f12",
        "shift+tab", "<", "ctrl+left", "鮫",
    ] {
        let key = Key::parse(text).expect("a representable key");
        assert_eq!(key.to_string(), text);
    }
}

#[test]
fn a_plus_sign_is_a_key_like_any_other() {
    assert_eq!(Key::parse("+"), Ok(Key::character('+')));
    assert_eq!(Key::parse("ctrl++"), Ok(Key::character('+').with_ctrl()));
}

#[test]
fn named_keys_are_named_keys() {
    assert_eq!(Key::parse("esc"), Ok(Key::named(Named::Esc)));
    assert_eq!(Key::parse("f7"), Ok(Key::named(Named::Function(7))));
    assert_eq!(
        Key::parse("space").map(|key| key.code),
        Ok(KeyCode::Character(' '))
    );
    assert_eq!(Key::parse("shift+tab"), Ok(Key::named(Named::BackTab)));
}

#[test]
fn what_is_no_key_is_refused_with_its_text() {
    for text in ["", "f0", "f13", "hyper+x", "shift+q", "qq", "ctrl+"] {
        let invalid = Key::parse(text).expect_err("no key");
        assert_eq!(invalid.input, text);
    }
}

#[test]
fn compiled_bindings_resolve_in_their_scopes() {
    let registry = CommandRegistry::builtin();
    let q = Key::character('q');
    assert_eq!(
        registry.resolve(CommandScope::ProviderSelector, q),
        Some(Command::Quit)
    );
    assert_eq!(
        registry.resolve(CommandScope::ResourcePanel(0), Key::character('S')),
        Some(Command::Resource(ResourceCommand::Start))
    );
    assert_eq!(
        registry.resolve(CommandScope::Details, Key::character('y')),
        Some(Command::CopyDetails)
    );
    assert_eq!(
        registry.resolve(CommandScope::Confirmation, Key::character('y')),
        Some(Command::Confirm)
    );
    assert_eq!(
        registry.resolve(CommandScope::Confirmation, Key::character('S')),
        None
    );
    assert_eq!(
        registry.first_key(Command::FocusResourcePanel(8)),
        Some(Key::character('0'))
    );
    assert_eq!(NUMBERED_RESOURCE_PANEL_CAPACITY, 9);
}

#[test]
fn an_unmentioned_command_keeps_its_keys_and_a_mentioned_one_has_the_keys_listed() {
    let registry = registry(&[("app_quit", &["x", "ctrl+q"])]);
    let scope = CommandScope::ProviderSelector;
    assert_eq!(
        registry.resolve(scope, Key::character('x')),
        Some(Command::Quit)
    );
    assert_eq!(registry.resolve(scope, Key::character('q')), None);
    assert_eq!(
        registry.first_key(Command::ToggleHelp),
        Some(Key::character('?'))
    );
    assert_eq!(
        registry.first_key(Command::Quit),
        Some(Key::character('x'))
    );
}

#[test]
fn an_empty_list_disables_a_command() {
    let registry = registry(&[("resource_delete", &[])]);
    assert_eq!(
        registry.first_key(Command::Resource(ResourceCommand::Delete)),
        None
    );
    assert!(registry
        .in_scope(CommandScope::ResourcePanel(0))
        .iter()
        .all(|command| command.command != Command::Resource(ResourceCommand::Delete)
            || command.keys.is_empty()));
}

#[test]
fn ctrl_c_always_quits() {
    let registry = registry(&[("app_quit", &[])]);
    let ctrl_c = CommandRegistry::emergency_quit_key();
    assert_eq!(ctrl_c, Key::character('c').with_ctrl());
    assert_eq!(registry.reserved(ctrl_c), Some(Command::Quit));
    assert_eq!(registry.reserved(Key::character('c')), None);
}

#[test]
fn every_rejected_binding_says_why() {
    assert_eq!(
        errors(&[("app_explode", &["x"])]),
        vec!["[keybindings] has no Command named \"app_explode\""]
    );
    assert_eq!(
        errors(&[("app_quit", &["hyper+q"])]),
        vec!["[keybindings] \"app_quit\" has an unrecognised key \"hyper+q\""]
    );
    assert_eq!(
        errors(&[("app_quit", &["q", "q"])]),
        vec!["[keybindings] \"app_quit\" lists \"q\" more than once"]
    );
    assert_eq!(
        errors(&[("app_help", &["ctrl+c"])]),
        vec!["[keybindings] \"app_help\" cannot claim \"ctrl+c\": it always quits Tuivir"]
    );
    assert_eq!(
        errors(&[("app_help", &["q"])]),
        vec![
            "[keybindings] \"q\" is bound to both \"app_quit\" and \"app_help\", which can be \
             invoked at the same time"
        ]
    );
}

#[test]
fn one_key_may_mean_different_things_in_different_scopes() {
    assert!(errors(&[]).is_empty());
    let registry = CommandRegistry::builtin();
    let y = Key::character('y');
    assert_ne!(
        registry.resolve(CommandScope::Details, y),
        registry.resolve(CommandScope::CommandFailure, y)
    );
}

fn shell(prefix: Option<&str>, bindings: &[(&str, &[&str])]) -> Result<ResourceShellControls, Vec<String>> {
    ResourceShellControls::effective(
        prefix.map(str::to_owned),
        bindings.iter().map(|(id, keys)| binding(id, keys)).collect(),
    )
    .map_err(|errors| errors.iter().map(KeybindingError::to_string).collect())
}

#[test]
fn shell_controls_are_configured_like_other_bindings() {
    let controls = shell(None, &[]).expect("compiled controls");
    assert_eq!(controls.prefix(), Key::character('t').with_ctrl());
    assert_eq!(controls.focus_tuivir(), &vec![Key::character('q')]);
    assert_eq!(controls.toggle_zoom(), &vec![Key::character('z')]);

    let controls = shell(
        Some("ctrl+a"),
        &[("focus_tuivir", &["d", "esc"]), ("toggle_zoom", &[])],
    )
    .expect("valid controls");
    assert_eq!(controls.prefix(), Key::character('a').with_ctrl());
    assert_eq!(
        controls.focus_tuivir(),
        &vec![Key::character('d'), Key::named(Named::Esc)]
    );
    assert!(controls.toggle_zoom().is_empty());
}

#[test]
fn every_rejected_shell_control_says_why() {
    assert_eq!(
        shell(Some("hyper+x"), &[]),
        Err(vec![
            "[resource_shell] has an unrecognised Shell Prefix \"hyper+x\"".to_owned()
        ])
    );
    assert_eq!(
        shell(None, &[("toggle_zoom", &["zz"])]),
        Err(vec![
            "[resource_shell.keybindings] \"toggle_zoom\" has an unrecognised key \"zz\"".to_owned()
        ])
    );
    assert_eq!(
        shell(None, &[("detach", &["d"])]),
        Err(vec![
            "[resource_shell.keybindings] has no Resource Shell control named \"detach\"".to_owned()
        ])
    );
    assert_eq!(
        shell(None, &[("focus_tuivir", &[])]),
        Err(vec![
            "[resource_shell.keybindings] \"focus_tuivir\" must bind at least one key".to_owned()
        ])
    );
    assert_eq!(
        shell(None, &[("toggle_zoom", &["x", "x"])]),
        Err(vec![
            "[resource_shell.keybindings] \"toggle_zoom\" lists \"x\" more than once".to_owned()
        ])
    );
    assert_eq!(
        shell(None, &[("toggle_zoom", &["q"])]),
        Err(vec![
            "[resource_shell.keybindings] \"q\" is bound to both \"focus_tuivir\" and \
             \"toggle_zoom\""
                .to_owned()
        ])
    );
    assert_eq!(
        shell(Some("q"), &[]),
        Err(vec![
            "[resource_shell] Shell Prefix \"q\" collides with \"focus_tuivir\"".to_owned()
        ])
    );
}

fn env(config_file: Option<&str>, xdg: Option<&str>, home: Option<&str>) -> Env {
    Env {
        config_file: config_file.map(str::to_owned),
        xdg_config_home: xdg.map(str::to_owned),
        home: home.map(str::to_owned),
    }
}

fn selected(path: &str, explicit: bool) -> Result<Option<Selection>, LoadError> {
    Ok(Some(Selection {
        path: path.to_owned(),
        explicit,
    }))
}

#[test]
fn one_configuration_file_is_selected() {
    assert_eq!(
        env(Some("/etc/t.toml"), Some("/xdg"), Some("/home/me")).select(),
        selected("/etc/t.toml", true)
    );
    assert_eq!(
        env(None, Some("/xdg"), Some("/home/me")).select(),
        selected("/xdg/tuivir/config.toml", false)
    );
    assert_eq!(
        env(None, Some(""), Some("/home/me/")).select(),
        selected("/home/me/.config/tuivir/config.toml", false)
    );
    assert_eq!(env(None, None, None).select(), Ok(None));
}

#[test]
fn a_relative_path_selects_nothing_silently() {
    let error = env(Some("t.toml"), None, None)
        .select()
        .expect_err("relative");
    assert_eq!(
        error.to_string(),
        "TUIVIR_CONFIG_FILE must be an absolute path, not t.toml"
    );
    let error = env(None, Some("xdg"), Some("/home/me"))
        .select()
        .expect_err("relative");
    assert_eq!(
        error.to_string(),
        "XDG_CONFIG_HOME must be an absolute path, not xdg"
    );
}

fn selection(explicit: bool) -> Selection {
    Selection {
        path: "/c.toml".to_owned(),
        explicit,
    }
}

fn message(result: Result<Configuration, LoadError>) -> Option<String> {
    result.err().map(|error| error.to_string())
}

#[test]
fn an_unread_file_is_an_error_only_where_it_was_asked_for() {
    assert_eq!(message(selection(false).unread(true)), None);
    assert_eq!(
        message(selection(true).unread(true)).as_deref(),
        Some("Configuration file does not exist: /c.toml")
    );
    assert_eq!(
        message(selection(false).unread(false)).as_deref(),
        Some("Configuration file could not be read: /c.toml")
    );
    assert!(selection(false).says_nothing(" \n\t"));
    assert!(!selection(false).says_nothing("[keybindings]"));
    assert_eq!(
        selection(false).unparsable("bad key".to_owned()).to_string(),
        "Could not parse /c.toml: bad key"
    );
}

fn raw(keybindings: &[(&str, &[&str])], prefix: Option<&str>) -> RawConfig {
    RawConfig {
        keybindings: keybindings
            .iter()
            .map(|(id, keys)| binding(id, keys))
            .collect(),
        shell_prefix: prefix.map(str::to_owned),
        shell_keybindings: Vec::new(),
    }
}

#[test]
fn a_file_is_applied_whole_or_not_at_all() {
    let configuration = selection(false)
        .configure(raw(&[("app_quit", &["x"])], Some("ctrl+a")))
        .expect("a valid file");
    assert_eq!(
        configuration.registry.first_key(Command::Quit),
        Some(Key::character('x'))
    );
    assert_eq!(
        configuration.controls.prefix(),
        Key::character('a').with_ctrl()
    );

    assert_eq!(
        message(selection(false).configure(raw(&[("nope", &["x"])], Some("nope")))).as_deref(),
        Some(
            "Invalid configuration in /c.toml:\n  [keybindings] has no Command named \"nope\"\n  \
             [resource_shell] has an unrecognised Shell Prefix \"nope\""
        )
    );
    assert!(selection(false)
        .configure(raw(&[("app_quit", &["x"])], Some("nope")))
        .is_err());
}

#[test]
fn the_compiled_bindings_are_the_documented_ones() {
    let documented: &[(&str, &[&str])] = &[
        ("app_quit", &["q"]),
        ("app_help", &["?"]),
        ("app_refresh", &["ctrl+r"]),
        ("focus_resources", &["2"]),
        ("focus_resources_2", &["3"]),
        ("focus_resources_3", &["4"]),
        ("focus_resources_4", &["5"]),
        ("focus_resources_5", &["6"]),
        ("focus_resources_6", &["7"]),
        ("focus_resources_7", &["8"]),
        ("focus_resources_8", &["9"]),
        ("focus_resources_9", &["0"]),
        ("focus_details", &["enter"]),
        ("focus_next", &["tab"]),
        ("focus_previous", &["shift+tab"]),
        ("selection_next", &["j", "down"]),
        ("selection_previous", &["k", "up"]),
        ("selection_next_fast", &["J"]),
        ("selection_previous_fast", &["K"]),
        ("workspace_next", &["]"]),
        ("workspace_previous", &["["]),
        ("detail_view_next", &["l", "right"]),
        ("detail_view_previous", &["h", "left"]),
        ("detail_scroll_down", &["ctrl+d", "pagedown"]),
        ("detail_scroll_up", &["ctrl+u", "pageup"]),
        ("details_copy", &["y"]),
        ("layout_boundary_left", &["<"]),
        ("layout_boundary_right", &[">"]),
        ("modal_confirm", &["y", "enter"]),
        ("modal_cancel", &["esc", "n"]),
        ("resource_start", &["S"]),
        ("resource_stop", &["s"]),
        ("resource_restart", &["r"]),
        ("resource_resume", &["p"]),
        ("resource_shell", &["E"]),
        ("resource_delete", &["d"]),
    ];
    let registry = CommandRegistry::builtin();
    let mut bound: Vec<(String, Vec<String>)> = Vec::new();
    for scope in [
        CommandScope::ProviderSelector,
        CommandScope::ResourcePanel(0),
        CommandScope::Details,
        CommandScope::Confirmation,
        CommandScope::CommandFailure,
        CommandScope::HelpOverlay,
    ] {
        for command in registry.in_scope(scope) {
            // The emergency key belongs to Quit on top of what is bound to it.
            let keys = command
                .keys
                .iter()
                .filter(|key| **key != CommandRegistry::emergency_quit_key())
                .map(Key::to_string)
                .collect();
            bound.push((command.id.to_string(), keys));
        }
    }
    for (id, keys) in documented {
        let entry = bound.iter().find(|(bound, _)| bound == id);
        let keys: Vec<String> = keys.iter().map(|key| (*key).to_owned()).collect();
        assert_eq!(entry.map(|(_, keys)| keys), Some(&keys), "{id}");
        let overrides = vec![((*id).to_owned(), keys)];
        assert!(CommandRegistry::effective(&overrides).is_ok(), "{id}");
    }
}

#[test]
fn a_view_from_the_snapshot_is_never_loaded() {
    let view = tuivir::application::DetailView::from_snapshot("overview", "Overview");
    assert!(view.loads_from_snapshot());
    assert!(!tuivir::application::DetailView::new("logs", "Logs").loads_from_snapshot());
}
