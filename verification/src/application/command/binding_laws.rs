//! Which Command every compiled key gives, and where.

use vstd::prelude::*;

use super::defaults::builtin_commands;
use super::table_laws::law_resolving_does_not_depend_on_order;
use super::{answers_in, offered, resolved, Command, CommandModel, CommandScope, ResourceCommand};
use crate::application::key::{Key, KeyCode, Named};

verus! {

/// A key by its character alone.
pub open spec fn letter(c: char) -> Key {
    Key { code: KeyCode::Character(c), ctrl: false, alt: false }
}

/// A character with control held.
pub open spec fn with_control(c: char) -> Key {
    Key { code: KeyCode::Character(c), ctrl: true, alt: false }
}

/// A key by its name alone.
pub open spec fn by_name(named: Named) -> Key {
    Key { code: KeyCode::Named(named), ctrl: false, alt: false }
}

/// The Commands of the whole application: what they are called, what they do, where
/// they are offered and by which keys.
pub proof fn law_the_application_commands_are_bound()
    ensures
        builtin_commands()[0] == (CommandModel {
            id: "app_quit"@,
            description: "Quit"@,
            command: Command::Quit,
            scopes: seq![CommandScope::ProviderSelector, CommandScope::ResourceView, CommandScope::Details],
            keys: seq![letter('q')],
        }),
        builtin_commands()[1] == (CommandModel {
            id: "app_help"@,
            description: "Help"@,
            command: Command::ToggleHelp,
            scopes: seq![CommandScope::ProviderSelector, CommandScope::ResourceView, CommandScope::Details, CommandScope::HelpOverlay],
            keys: seq![letter('?')],
        }),
        builtin_commands()[2] == (CommandModel {
            id: "app_refresh"@,
            description: "Refresh"@,
            command: Command::Refresh,
            scopes: seq![CommandScope::ProviderSelector, CommandScope::ResourceView, CommandScope::Details],
            keys: seq![with_control('r')],
        }),
        builtin_commands()[3] == (CommandModel {
            id: "focus_providers"@,
            description: "Focus providers"@,
            command: Command::FocusProviders,
            scopes: seq![CommandScope::ProviderSelector, CommandScope::ResourceView, CommandScope::Details],
            keys: seq![letter('1')],
        }),
{
}

/// The Resource Panels are focused by the digits from two on, and the ninth by
/// nought.
pub proof fn law_the_panels_are_bound_to_the_digits()
    ensures
        builtin_commands()[4] == (CommandModel {
            id: "focus_resources"@,
            description: "Focus first Resource Panel"@,
            command: Command::FocusResourcePanel(0),
            scopes: seq![CommandScope::ProviderSelector, CommandScope::ResourceView, CommandScope::Details],
            keys: seq![letter('2')],
        }),
        builtin_commands()[5] == (CommandModel {
            id: "focus_resources_2"@,
            description: "Focus second Resource Panel"@,
            command: Command::FocusResourcePanel(1),
            scopes: seq![CommandScope::ProviderSelector, CommandScope::ResourceView, CommandScope::Details],
            keys: seq![letter('3')],
        }),
        builtin_commands()[6] == (CommandModel {
            id: "focus_resources_3"@,
            description: "Focus third Resource Panel"@,
            command: Command::FocusResourcePanel(2),
            scopes: seq![CommandScope::ProviderSelector, CommandScope::ResourceView, CommandScope::Details],
            keys: seq![letter('4')],
        }),
        builtin_commands()[7] == (CommandModel {
            id: "focus_resources_4"@,
            description: "Focus fourth Resource Panel"@,
            command: Command::FocusResourcePanel(3),
            scopes: seq![CommandScope::ProviderSelector, CommandScope::ResourceView, CommandScope::Details],
            keys: seq![letter('5')],
        }),
        builtin_commands()[8] == (CommandModel {
            id: "focus_resources_5"@,
            description: "Focus fifth Resource Panel"@,
            command: Command::FocusResourcePanel(4),
            scopes: seq![CommandScope::ProviderSelector, CommandScope::ResourceView, CommandScope::Details],
            keys: seq![letter('6')],
        }),
        builtin_commands()[9] == (CommandModel {
            id: "focus_resources_6"@,
            description: "Focus sixth Resource Panel"@,
            command: Command::FocusResourcePanel(5),
            scopes: seq![CommandScope::ProviderSelector, CommandScope::ResourceView, CommandScope::Details],
            keys: seq![letter('7')],
        }),
        builtin_commands()[10] == (CommandModel {
            id: "focus_resources_7"@,
            description: "Focus seventh Resource Panel"@,
            command: Command::FocusResourcePanel(6),
            scopes: seq![CommandScope::ProviderSelector, CommandScope::ResourceView, CommandScope::Details],
            keys: seq![letter('8')],
        }),
        builtin_commands()[11] == (CommandModel {
            id: "focus_resources_8"@,
            description: "Focus eighth Resource Panel"@,
            command: Command::FocusResourcePanel(7),
            scopes: seq![CommandScope::ProviderSelector, CommandScope::ResourceView, CommandScope::Details],
            keys: seq![letter('9')],
        }),
        builtin_commands()[12] == (CommandModel {
            id: "focus_resources_9"@,
            description: "Focus ninth Resource Panel"@,
            command: Command::FocusResourcePanel(8),
            scopes: seq![CommandScope::ProviderSelector, CommandScope::ResourceView, CommandScope::Details],
            keys: seq![letter('0')],
        }),
{
}

/// The Commands that move the focus, the selection and the Workspace.
pub proof fn law_the_navigation_commands_are_bound()
    ensures
        builtin_commands()[13] == (CommandModel {
            id: "focus_details"@,
            description: "Focus Details"@,
            command: Command::FocusDetails,
            scopes: seq![CommandScope::ProviderSelector, CommandScope::ResourceView, CommandScope::Details],
            keys: seq![by_name(Named::Enter)],
        }),
        builtin_commands()[14] == (CommandModel {
            id: "focus_next"@,
            description: "Focus next Pane"@,
            command: Command::FocusNextPane,
            scopes: seq![CommandScope::ProviderSelector, CommandScope::ResourceView, CommandScope::Details],
            keys: seq![by_name(Named::Tab)],
        }),
        builtin_commands()[15] == (CommandModel {
            id: "focus_previous"@,
            description: "Focus previous Pane"@,
            command: Command::FocusPreviousPane,
            scopes: seq![CommandScope::ProviderSelector, CommandScope::ResourceView, CommandScope::Details],
            keys: seq![by_name(Named::BackTab)],
        }),
        builtin_commands()[16] == (CommandModel {
            id: "selection_next"@,
            description: "Select next"@,
            command: Command::SelectNext,
            scopes: seq![CommandScope::ProviderSelector, CommandScope::ResourceView],
            keys: seq![letter('j'), by_name(Named::Down)],
        }),
        builtin_commands()[17] == (CommandModel {
            id: "selection_previous"@,
            description: "Select previous"@,
            command: Command::SelectPrevious,
            scopes: seq![CommandScope::ProviderSelector, CommandScope::ResourceView],
            keys: seq![letter('k'), by_name(Named::Up)],
        }),
        builtin_commands()[18] == (CommandModel {
            id: "selection_next_fast"@,
            description: "Select five ahead"@,
            command: Command::SelectNextFast,
            scopes: seq![CommandScope::ResourceView],
            keys: seq![letter('J')],
        }),
        builtin_commands()[19] == (CommandModel {
            id: "selection_previous_fast"@,
            description: "Select five back"@,
            command: Command::SelectPreviousFast,
            scopes: seq![CommandScope::ResourceView],
            keys: seq![letter('K')],
        }),
        builtin_commands()[20] == (CommandModel {
            id: "workspace_next"@,
            description: "Next workspace"@,
            command: Command::NextWorkspace,
            scopes: seq![CommandScope::ProviderSelector, CommandScope::ResourceView, CommandScope::Details],
            keys: seq![letter(']')],
        }),
        builtin_commands()[21] == (CommandModel {
            id: "workspace_previous"@,
            description: "Previous workspace"@,
            command: Command::PreviousWorkspace,
            scopes: seq![CommandScope::ProviderSelector, CommandScope::ResourceView, CommandScope::Details],
            keys: seq![letter('[')],
        }),
{
}

/// The Commands of the Details Pane, and those that move its edge.
pub proof fn law_the_detail_commands_are_bound()
    ensures
        builtin_commands()[22] == (CommandModel {
            id: "detail_view_next"@,
            description: "Next detail view"@,
            command: Command::NextDetailView,
            scopes: seq![CommandScope::Details],
            keys: seq![letter('l'), by_name(Named::Right)],
        }),
        builtin_commands()[23] == (CommandModel {
            id: "detail_view_previous"@,
            description: "Previous detail view"@,
            command: Command::PreviousDetailView,
            scopes: seq![CommandScope::Details],
            keys: seq![letter('h'), by_name(Named::Left)],
        }),
        builtin_commands()[24] == (CommandModel {
            id: "detail_scroll_down"@,
            description: "Scroll details down"@,
            command: Command::ScrollDetailsDown,
            scopes: seq![CommandScope::Details],
            keys: seq![with_control('d'), by_name(Named::PageDown)],
        }),
        builtin_commands()[25] == (CommandModel {
            id: "detail_scroll_up"@,
            description: "Scroll details up"@,
            command: Command::ScrollDetailsUp,
            scopes: seq![CommandScope::Details],
            keys: seq![with_control('u'), by_name(Named::PageUp)],
        }),
        builtin_commands()[26] == (CommandModel {
            id: "details_copy"@,
            description: "Copy selected details"@,
            command: Command::CopyDetails,
            scopes: seq![CommandScope::Details],
            keys: seq![letter('y')],
        }),
        builtin_commands()[27] == (CommandModel {
            id: "layout_boundary_left"@,
            description: "Widen Details Pane"@,
            command: Command::MovePaneBoundaryLeft,
            scopes: seq![CommandScope::ProviderSelector, CommandScope::ResourceView, CommandScope::Details],
            keys: seq![letter('<')],
        }),
        builtin_commands()[28] == (CommandModel {
            id: "layout_boundary_right"@,
            description: "Widen Resource Panels"@,
            command: Command::MovePaneBoundaryRight,
            scopes: seq![CommandScope::ProviderSelector, CommandScope::ResourceView, CommandScope::Details],
            keys: seq![letter('>')],
        }),
{
}

/// The Commands of an open modal.
pub proof fn law_the_modal_commands_are_bound()
    ensures
        builtin_commands()[29] == (CommandModel {
            id: "modal_confirm"@,
            description: "Confirm"@,
            command: Command::Confirm,
            scopes: seq![CommandScope::Confirmation, CommandScope::CommandFailure, CommandScope::HelpOverlay],
            keys: seq![letter('y'), by_name(Named::Enter)],
        }),
        builtin_commands()[30] == (CommandModel {
            id: "modal_cancel"@,
            description: "Cancel"@,
            command: Command::Cancel,
            scopes: seq![CommandScope::Confirmation, CommandScope::CommandFailure, CommandScope::HelpOverlay],
            keys: seq![by_name(Named::Esc), letter('n')],
        }),
{
}

/// The Commands for the selected Resource.
pub proof fn law_the_resource_commands_are_bound()
    ensures
        builtin_commands()[31] == (CommandModel {
            id: "resource_start"@,
            description: "Start"@,
            command: Command::Resource(ResourceCommand::Start),
            scopes: seq![CommandScope::ResourceView],
            keys: seq![letter('S')],
        }),
        builtin_commands()[32] == (CommandModel {
            id: "resource_stop"@,
            description: "Stop"@,
            command: Command::Resource(ResourceCommand::Stop),
            scopes: seq![CommandScope::ResourceView],
            keys: seq![letter('s')],
        }),
        builtin_commands()[33] == (CommandModel {
            id: "resource_restart"@,
            description: "Restart"@,
            command: Command::Resource(ResourceCommand::Restart),
            scopes: seq![CommandScope::ResourceView],
            keys: seq![letter('r')],
        }),
        builtin_commands()[34] == (CommandModel {
            id: "resource_resume"@,
            description: "Resume"@,
            command: Command::Resource(ResourceCommand::Resume),
            scopes: seq![CommandScope::ResourceView],
            keys: seq![letter('p')],
        }),
        builtin_commands()[35] == (CommandModel {
            id: "resource_shell"@,
            description: "Shell"@,
            command: Command::OpenShell,
            scopes: seq![CommandScope::ResourceView],
            keys: seq![letter('E')],
        }),
        builtin_commands()[36] == (CommandModel {
            id: "resource_delete"@,
            description: "Delete"@,
            command: Command::Resource(ResourceCommand::Delete),
            scopes: seq![CommandScope::ResourceView],
            keys: seq![letter('d')],
        }),
{
}

/// There are no other Commands than these.
pub proof fn law_the_compiled_table_is_complete()
    ensures
        builtin_commands().len() == 37,
{
}

/// A key of a compiled Command gives that Command wherever it is offered, and in
/// every Resource Panel where it is offered in all of them.
pub proof fn law_a_compiled_key_gives_its_command(i: int, scope: CommandScope, key: Key)
    requires
        0 <= i < builtin_commands().len(),
        builtin_commands()[i].keys.contains(key),
        builtin_commands()[i].scopes.contains(scope) || scope is ResourcePanel
            && builtin_commands()[i].scopes.contains(CommandScope::ResourceView),
    ensures
        resolved(builtin_commands(), scope, key) == Some(builtin_commands()[i].command),
{
    law_resolving_does_not_depend_on_order(Seq::empty(), scope, key);
    let entry = builtin_commands()[i];
    if entry.scopes.contains(scope) {
        let s = choose|s: int| 0 <= s < entry.scopes.len() && entry.scopes[s] == scope;
        assert(entry.scopes[s] == scope);
        assert(answers_in(entry.scopes, scope));
    } else {
        let s = choose|s: int|
            0 <= s < entry.scopes.len() && entry.scopes[s] == CommandScope::ResourceView;
        assert(entry.scopes[s] == CommandScope::ResourceView);
        assert(answers_in(entry.scopes, scope));
    }
    assert(offered(entry, scope));
}

} // verus!
