//! What the bar and the help list.

use vstd::prelude::*;

use super::effect_laws::{lemma_surroundings, lemma_works_on, works_on};
use super::command_laws::{lemma_left, same_surroundings, unselected};
use super::model::{
    at_most, bar_candidates, bar_entry, help_entries, help_entry, AppModel, Outcome,
};
use super::state::{FocusedPane, HelpEntryModel, StateModel};
use crate::application::command::{offered, offered_in, Command, CommandModel, CommandScope};
use crate::application::key::shown;
use crate::application::provider::{PanelModel, ResourceModel};
use crate::application::workspace::model::WorkspaceModel;

verus! {

/// Whether a bound Command is registered for a part of the interface.
pub open spec fn belongs(entry: CommandModel, scope: CommandScope) -> bool {
    entry.keys.len() > 0 && exists|i: int|
        0 <= i < entry.scopes.len() && (#[trigger] entry.scopes[i] == scope || entry.scopes[i]
            == CommandScope::ResourceView && scope is ResourcePanel)
}

/// Whether a Command can be carried out on a Resource, where it is about one.
pub open spec fn applies(command: Command, resource: Option<ResourceModel>) -> bool {
    match command {
        Command::Resource(operation) => resource matches Some(resource)
            && resource.available_commands.contains(operation),
        _ => true,
    }
}

proof fn lemma_offered(registry: Seq<CommandModel>, scope: CommandScope)
    ensures
        offered_in(registry, scope) == registry.filter(|entry: CommandModel| belongs(entry, scope)),
    decreases registry.len(),
{
    reveal(Seq::filter);
    if registry.len() > 0 {
        lemma_offered(registry.drop_last(), scope);
        assert(offered(registry.last(), scope) == belongs(registry.last(), scope));
    } else {
        assert(registry =~= Seq::<CommandModel>::empty());
    }
}

proof fn lemma_bar(commands: Seq<CommandModel>, resource: Option<ResourceModel>, wanted: bool)
    ensures
        bar_candidates(commands, resource, wanted) == commands.filter(
            |entry: CommandModel|
                applies(entry.command, resource) && entry.command != Command::ToggleHelp
                    && (entry.command is Resource) == wanted,
        ),
    decreases commands.len(),
{
    reveal(Seq::filter);
    if commands.len() > 0 {
        lemma_bar(commands.drop_last(), resource, wanted);
    } else {
        assert(commands =~= Seq::<CommandModel>::empty());
    }
}

/// The part of the interface that answers keys: the topmost modal, or the Pane
/// in focus.
pub open spec fn answering_scope(app: AppModel) -> CommandScope {
    if app.state.confirmation is Some {
        CommandScope::Confirmation
    } else if app.state.command_error is Some {
        CommandScope::CommandFailure
    } else if app.state.help_overlay is Some {
        CommandScope::HelpOverlay
    } else {
        match app.state.focused_pane {
            FocusedPane::Providers => CommandScope::ProviderSelector,
            FocusedPane::Details => CommandScope::Details,
            FocusedPane::Resources => match app.active_workspace() {
                Some(workspace) => match workspace.focused_panel_index() {
                    Some(index) => CommandScope::ResourcePanel(index as usize),
                    None => CommandScope::ResourceView,
                },
                None => CommandScope::ResourceView,
            },
        }
    }
}

/// The Commands that the bar has to offer in a part of the interface: first
/// what can be done with the selected Resource, then what else can be done.
pub open spec fn bar_commands(
    registry: Seq<CommandModel>,
    scope: CommandScope,
    resource: Option<ResourceModel>,
) -> Seq<CommandModel> {
    let here = registry.filter(|entry: CommandModel| belongs(entry, scope));
    here.filter(
        |entry: CommandModel|
            applies(entry.command, resource) && entry.command != Command::ToggleHelp
                && (entry.command is Resource) == true,
    ) + here.filter(
        |entry: CommandModel|
            applies(entry.command, resource) && entry.command != Command::ToggleHelp
                && (entry.command is Resource) == false,
    )
}

/// After every event and Command the bar shows the first four Commands that
/// can be given now, each by its first key and what it does.
pub proof fn law_the_bar_shows_what_can_be_done(outcome: Outcome)
    ensures
        ({
            let after = AppModel::followed_up(outcome).0;
            let commands = bar_commands(
                after.commands,
                answering_scope(after),
                after.selected_resource(),
            );
            let bar = after.state.command_bar;
            &&& bar.len() == (if commands.len() < 4 {
                commands.len() as int
            } else {
                4
            })
            &&& forall|i: int|
                0 <= i < bar.len() ==> (#[trigger] bar[i]).key == shown(commands[i].keys[0])
                    && bar[i].description == commands[i].description
        }),
{
    reveal(AppModel::bar_updated);
    let synced = outcome.0.details_synced().0;
    let after = AppModel::followed_up(outcome).0;
    let scope = synced.active_scope();
    let resource = synced.selected_resource();
    assert(answering_scope(after) == scope);
    assert(after.selected_resource() == resource);
    lemma_offered(synced.commands, scope);
    let here = offered_in(synced.commands, scope);
    lemma_bar(here, resource, true);
    lemma_bar(here, resource, false);
    let commands = bar_commands(after.commands, scope, resource);
    assert(bar_candidates(here, resource, true) + bar_candidates(here, resource, false)
        == commands);
    let shortened = at_most(commands, 4);
    assert(after.state.command_bar == shortened.map_values(|entry: CommandModel| bar_entry(entry)));
}

proof fn lemma_help(commands: Seq<CommandModel>, resource: ResourceModel, count: int)
    ensures
        help_entries(commands, resource, count) == commands.filter(
            |entry: CommandModel|
                !(entry.command matches Command::FocusResourcePanel(index) && index >= count),
        ).map_values(|entry: CommandModel| help_entry(entry, resource)),
    decreases commands.len(),
{
    reveal(Seq::filter);
    let kept = |entry: CommandModel|
        !(entry.command matches Command::FocusResourcePanel(index) && index >= count);
    let made = |entry: CommandModel| help_entry(entry, resource);
    if commands.len() > 0 {
        let rest = commands.drop_last();
        lemma_help(rest, resource, count);
        if kept(commands.last()) {
            assert(rest.filter(kept).push(commands.last()).map_values(made) =~= rest.filter(
                kept,
            ).map_values(made).push(made(commands.last())));
        }
    } else {
        assert(commands =~= Seq::<CommandModel>::empty());
        assert(commands.filter(kept).map_values(made) =~= Seq::<HelpEntryModel>::empty());
    }
}

/// Help lists every bound Command of the focused Pane in order, those of panels
/// that do not exist aside, each by its first key and what it does, and says
/// which of them the selected Resource does not offer. Asked for again, it is
/// put away.
pub proof fn law_help_lists_what_can_be_done(
    app: AppModel,
    workspace: WorkspaceModel,
    panels: Seq<PanelModel>,
    p: int,
    s: int,
)
    requires
        works_on(app, workspace, panels, p, s),
    ensures
        ({
            let after = app.invoked(Command::ToggleHelp).0;
            let overlay = after.state.help_overlay;
            let resource = panels[p].resources[s];
            &&& same_surroundings(
                after,
                AppModel { state: StateModel { help_overlay: overlay, ..app.state }, ..app },
            )
            &&& app.state.help_overlay is Some || app.state.focused_pane == FocusedPane::Providers
                ==> overlay is None
            &&& app.state.help_overlay is None && app.state.focused_pane != FocusedPane::Providers
                ==> {
                let scope = if app.state.focused_pane == FocusedPane::Resources {
                    CommandScope::ResourceView
                } else {
                    CommandScope::Details
                };
                let listed = app.commands.filter(
                    |entry: CommandModel| belongs(entry, scope),
                ).filter(
                    |entry: CommandModel|
                        !(entry.command matches Command::FocusResourcePanel(index) && index
                            >= panels.len()),
                );
                &&& overlay matches Some(help) && help.target == resource.name && help.entries.len()
                    == listed.len() && forall|i: int|
                    0 <= i < listed.len() ==> (#[trigger] help.entries[i]).key == shown(
                        listed[i].keys[0],
                    ) && help.entries[i].description == (if !applies(
                        listed[i].command,
                        Some(resource),
                    ) || listed[i].command == Command::OpenShell && resource.shell is None {
                        listed[i].description + " (unavailable)"@
                    } else {
                        listed[i].description
                    })
            }
        }),
{
    let command = Command::ToggleHelp;
    lemma_left(app, workspace, command);
    let left = app.selection_left(command);
    let quiet = unselected(workspace, command);
    lemma_works_on(left, quiet, panels, p, s);
    reveal(AppModel::dispatched);
    reveal(AppModel::carried_out);
    reveal(AppModel::help_toggled);
    reveal(AppModel::help);
    lemma_surroundings(app.dispatched(command));
    let scope = if app.state.focused_pane == FocusedPane::Resources {
        CommandScope::ResourceView
    } else {
        CommandScope::Details
    };
    lemma_offered(app.commands, scope);
    assert(left.panel_count() == panels.len());
    lemma_help(offered_in(app.commands, scope), panels[p].resources[s], panels.len() as int);
}

} // verus!
