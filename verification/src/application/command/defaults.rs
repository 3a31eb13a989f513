//! Compiled Command registration policy.
//!
//! User configuration supplies partial keybinding overrides; it cannot be the
//! source of these definitions because Tuivir must have its full Command
//! registry when no configuration file exists. Defaults follow lazydocker
//! wherever an equivalent Command exists.

use vstd::prelude::*;

use super::{Command, CommandModel, CommandScope, EffectiveCommand, ResourceCommand};
use crate::application::key::{Key, KeyCode, Named};
use crate::text::views;

verus! {

/// A Provider Workspace may expose at most this many Resource Panels so every
/// one retains a single-key numbered focus Command and visible hint.
pub const NUMBERED_RESOURCE_PANEL_CAPACITY: usize = 9;

pub open spec fn character_key(c: char) -> Key {
    Key { code: KeyCode::Character(c), ctrl: false, alt: false }
}

pub open spec fn control_key(c: char) -> Key {
    Key { code: KeyCode::Character(c), ctrl: true, alt: false }
}

pub open spec fn named_key(named: Named) -> Key {
    Key { code: KeyCode::Named(named), ctrl: false, alt: false }
}

/// Every scope in which the user is working inside a Provider Workspace rather
/// than answering a modal.
pub open spec fn workspace_scopes() -> Seq<CommandScope> {
    seq![CommandScope::ProviderSelector, CommandScope::ResourceView, CommandScope::Details]
}

fn new_workspace_scopes() -> (scopes: Vec<CommandScope>)
    ensures
        scopes@ == workspace_scopes(),
{
    vec![CommandScope::ProviderSelector, CommandScope::ResourceView, CommandScope::Details]
}

/// The scopes that have a selection to move.
pub open spec fn selectable_scopes() -> Seq<CommandScope> {
    seq![CommandScope::ProviderSelector, CommandScope::ResourceView]
}

fn new_selectable_scopes() -> (scopes: Vec<CommandScope>)
    ensures
        scopes@ == selectable_scopes(),
{
    vec![CommandScope::ProviderSelector, CommandScope::ResourceView]
}

/// The scope of the Resource Panels.
pub open spec fn resource_scopes() -> Seq<CommandScope> {
    seq![CommandScope::ResourceView]
}

fn new_resource_scopes() -> (scopes: Vec<CommandScope>)
    ensures
        scopes@ == resource_scopes(),
{
    vec![CommandScope::ResourceView]
}

/// The scope of the Details Pane.
pub open spec fn details_scopes() -> Seq<CommandScope> {
    seq![CommandScope::Details]
}

fn new_details_scopes() -> (scopes: Vec<CommandScope>)
    ensures
        scopes@ == details_scopes(),
{
    vec![CommandScope::Details]
}

/// Every modal scope. A modal replaces the workspace scope while it is open.
pub open spec fn modal_scopes() -> Seq<CommandScope> {
    seq![CommandScope::Confirmation, CommandScope::CommandFailure, CommandScope::HelpOverlay]
}

fn new_modal_scopes() -> (scopes: Vec<CommandScope>)
    ensures
        scopes@ == modal_scopes(),
{
    vec![CommandScope::Confirmation, CommandScope::CommandFailure, CommandScope::HelpOverlay]
}

/// Where help can be asked for and put away.
pub open spec fn help_scopes() -> Seq<CommandScope> {
    seq![CommandScope::ProviderSelector, CommandScope::ResourceView, CommandScope::Details, CommandScope::HelpOverlay]
}

fn new_help_scopes() -> (scopes: Vec<CommandScope>)
    ensures
        scopes@ == help_scopes(),
{
    vec![CommandScope::ProviderSelector, CommandScope::ResourceView, CommandScope::Details, CommandScope::HelpOverlay]
}

/// One row of the compiled table.
pub open spec fn row(
    id: Seq<char>,
    description: Seq<char>,
    command: Command,
    scopes: Seq<CommandScope>,
    keys: Seq<Key>,
) -> CommandModel {
    CommandModel { id, description, command, scopes, keys }
}

fn one_key(key: Key) -> (keys: Vec<Key>)
    ensures
        keys@ == seq![key],
{
    vec![key]
}

fn two_keys(first: Key, second: Key) -> (keys: Vec<Key>)
    ensures
        keys@ == seq![first, second],
{
    vec![first, second]
}

fn register(
    table: &mut Vec<EffectiveCommand>,
    id: &'static str,
    description: &'static str,
    command: Command,
    scopes: Vec<CommandScope>,
    keys: Vec<Key>,
)
    ensures
        views(final(table)@) == views(old(table)@).push(
            row(id@, description@, command, scopes@, keys@),
        ),
{
    let entry = EffectiveCommand { id, description, command, scopes, keys };
    table.push(entry);
    assert(views(table@) =~= views(old(table)@).push(entry@));
}

/// What the whole application answers to.
pub open spec fn application_commands() -> Seq<CommandModel> {
    seq![
        row(
            "app_quit"@,
            "Quit"@,
            Command::Quit,
            workspace_scopes(),
            seq![character_key('q')],
        ),
        row(
            "app_help"@,
            "Help"@,
            Command::ToggleHelp,
            help_scopes(),
            seq![character_key('?')],
        ),
        row(
            "app_refresh"@,
            "Refresh"@,
            Command::Refresh,
            workspace_scopes(),
            seq![control_key('r')],
        ),
        row(
            "focus_providers"@,
            "Focus providers"@,
            Command::FocusProviders,
            workspace_scopes(),
            seq![character_key('1')],
        ),
    ]
}

fn register_application_commands(table: &mut Vec<EffectiveCommand>)
    ensures
        views(final(table)@) == views(old(table)@) + application_commands(),
{
    register(
        table,
        "app_quit",
        "Quit",
        Command::Quit,
        new_workspace_scopes(),
        one_key(Key::character('q')),
    );
    register(
        table,
        "app_help",
        "Help",
        Command::ToggleHelp,
        new_help_scopes(),
        one_key(Key::character('?')),
    );
    register(
        table,
        "app_refresh",
        "Refresh",
        Command::Refresh,
        new_workspace_scopes(),
        one_key(Key::character('r').with_ctrl()),
    );
    register(
        table,
        "focus_providers",
        "Focus providers",
        Command::FocusProviders,
        new_workspace_scopes(),
        one_key(Key::character('1')),
    );
    assert(views(table@) =~= views(old(table)@) + application_commands());
}

/// One numbered focus Command for each Resource Panel a Workspace may have.
pub open spec fn panel_focus_commands() -> Seq<CommandModel> {
    seq![
        row(
            "focus_resources"@,
            "Focus first Resource Panel"@,
            Command::FocusResourcePanel(0),
            workspace_scopes(),
            seq![character_key('2')],
        ),
        row(
            "focus_resources_2"@,
            "Focus second Resource Panel"@,
            Command::FocusResourcePanel(1),
            workspace_scopes(),
            seq![character_key('3')],
        ),
        row(
            "focus_resources_3"@,
            "Focus third Resource Panel"@,
            Command::FocusResourcePanel(2),
            workspace_scopes(),
            seq![character_key('4')],
        ),
        row(
            "focus_resources_4"@,
            "Focus fourth Resource Panel"@,
            Command::FocusResourcePanel(3),
            workspace_scopes(),
            seq![character_key('5')],
        ),
        row(
            "focus_resources_5"@,
            "Focus fifth Resource Panel"@,
            Command::FocusResourcePanel(4),
            workspace_scopes(),
            seq![character_key('6')],
        ),
        row(
            "focus_resources_6"@,
            "Focus sixth Resource Panel"@,
            Command::FocusResourcePanel(5),
            workspace_scopes(),
            seq![character_key('7')],
        ),
        row(
            "focus_resources_7"@,
            "Focus seventh Resource Panel"@,
            Command::FocusResourcePanel(6),
            workspace_scopes(),
            seq![character_key('8')],
        ),
        row(
            "focus_resources_8"@,
            "Focus eighth Resource Panel"@,
            Command::FocusResourcePanel(7),
            workspace_scopes(),
            seq![character_key('9')],
        ),
        row(
            "focus_resources_9"@,
            "Focus ninth Resource Panel"@,
            Command::FocusResourcePanel(8),
            workspace_scopes(),
            seq![character_key('0')],
        ),
    ]
}

fn register_panel_focus_commands(table: &mut Vec<EffectiveCommand>)
    ensures
        views(final(table)@) == views(old(table)@) + panel_focus_commands(),
{
    register(
        table,
        "focus_resources",
        "Focus first Resource Panel",
        Command::FocusResourcePanel(0),
        new_workspace_scopes(),
        one_key(Key::character('2')),
    );
    register(
        table,
        "focus_resources_2",
        "Focus second Resource Panel",
        Command::FocusResourcePanel(1),
        new_workspace_scopes(),
        one_key(Key::character('3')),
    );
    register(
        table,
        "focus_resources_3",
        "Focus third Resource Panel",
        Command::FocusResourcePanel(2),
        new_workspace_scopes(),
        one_key(Key::character('4')),
    );
    register(
        table,
        "focus_resources_4",
        "Focus fourth Resource Panel",
        Command::FocusResourcePanel(3),
        new_workspace_scopes(),
        one_key(Key::character('5')),
    );
    register(
        table,
        "focus_resources_5",
        "Focus fifth Resource Panel",
        Command::FocusResourcePanel(4),
        new_workspace_scopes(),
        one_key(Key::character('6')),
    );
    register(
        table,
        "focus_resources_6",
        "Focus sixth Resource Panel",
        Command::FocusResourcePanel(5),
        new_workspace_scopes(),
        one_key(Key::character('7')),
    );
    register(
        table,
        "focus_resources_7",
        "Focus seventh Resource Panel",
        Command::FocusResourcePanel(6),
        new_workspace_scopes(),
        one_key(Key::character('8')),
    );
    register(
        table,
        "focus_resources_8",
        "Focus eighth Resource Panel",
        Command::FocusResourcePanel(7),
        new_workspace_scopes(),
        one_key(Key::character('9')),
    );
    register(
        table,
        "focus_resources_9",
        "Focus ninth Resource Panel",
        Command::FocusResourcePanel(8),
        new_workspace_scopes(),
        one_key(Key::character('0')),
    );
    assert(views(table@) =~= views(old(table)@) + panel_focus_commands());
}

/// Moving between Panes, Resources, and Provider Workspaces.
pub open spec fn navigation_commands() -> Seq<CommandModel> {
    seq![
        row(
            "focus_details"@,
            "Focus Details"@,
            Command::FocusDetails,
            workspace_scopes(),
            seq![named_key(Named::Enter)],
        ),
        row(
            "focus_next"@,
            "Focus next Pane"@,
            Command::FocusNextPane,
            workspace_scopes(),
            seq![named_key(Named::Tab)],
        ),
        row(
            "focus_previous"@,
            "Focus previous Pane"@,
            Command::FocusPreviousPane,
            workspace_scopes(),
            seq![named_key(Named::BackTab)],
        ),
        row(
            "selection_next"@,
            "Select next"@,
            Command::SelectNext,
            selectable_scopes(),
            seq![character_key('j'), named_key(Named::Down)],
        ),
        row(
            "selection_previous"@,
            "Select previous"@,
            Command::SelectPrevious,
            selectable_scopes(),
            seq![character_key('k'), named_key(Named::Up)],
        ),
        row(
            "selection_next_fast"@,
            "Select five ahead"@,
            Command::SelectNextFast,
            resource_scopes(),
            seq![character_key('J')],
        ),
        row(
            "selection_previous_fast"@,
            "Select five back"@,
            Command::SelectPreviousFast,
            resource_scopes(),
            seq![character_key('K')],
        ),
        row(
            "workspace_next"@,
            "Next workspace"@,
            Command::NextWorkspace,
            workspace_scopes(),
            seq![character_key(']')],
        ),
        row(
            "workspace_previous"@,
            "Previous workspace"@,
            Command::PreviousWorkspace,
            workspace_scopes(),
            seq![character_key('[')],
        ),
    ]
}

fn register_navigation_commands(table: &mut Vec<EffectiveCommand>)
    ensures
        views(final(table)@) == views(old(table)@) + navigation_commands(),
{
    register(
        table,
        "focus_details",
        "Focus Details",
        Command::FocusDetails,
        new_workspace_scopes(),
        one_key(Key::named(Named::Enter)),
    );
    register(
        table,
        "focus_next",
        "Focus next Pane",
        Command::FocusNextPane,
        new_workspace_scopes(),
        one_key(Key::named(Named::Tab)),
    );
    register(
        table,
        "focus_previous",
        "Focus previous Pane",
        Command::FocusPreviousPane,
        new_workspace_scopes(),
        one_key(Key::named(Named::BackTab)),
    );
    register(
        table,
        "selection_next",
        "Select next",
        Command::SelectNext,
        new_selectable_scopes(),
        two_keys(Key::character('j'), Key::named(Named::Down)),
    );
    register(
        table,
        "selection_previous",
        "Select previous",
        Command::SelectPrevious,
        new_selectable_scopes(),
        two_keys(Key::character('k'), Key::named(Named::Up)),
    );
    register(
        table,
        "selection_next_fast",
        "Select five ahead",
        Command::SelectNextFast,
        new_resource_scopes(),
        one_key(Key::character('J')),
    );
    register(
        table,
        "selection_previous_fast",
        "Select five back",
        Command::SelectPreviousFast,
        new_resource_scopes(),
        one_key(Key::character('K')),
    );
    register(
        table,
        "workspace_next",
        "Next workspace",
        Command::NextWorkspace,
        new_workspace_scopes(),
        one_key(Key::character(']')),
    );
    register(
        table,
        "workspace_previous",
        "Previous workspace",
        Command::PreviousWorkspace,
        new_workspace_scopes(),
        one_key(Key::character('[')),
    );
    assert(views(table@) =~= views(old(table)@) + navigation_commands());
}

/// Reading Details, and the share of the screen they hold. `<` and `>` point the
/// way the Pane Boundary travels.
pub open spec fn detail_commands() -> Seq<CommandModel> {
    seq![
        row(
            "detail_view_next"@,
            "Next detail view"@,
            Command::NextDetailView,
            details_scopes(),
            seq![character_key('l'), named_key(Named::Right)],
        ),
        row(
            "detail_view_previous"@,
            "Previous detail view"@,
            Command::PreviousDetailView,
            details_scopes(),
            seq![character_key('h'), named_key(Named::Left)],
        ),
        row(
            "detail_scroll_down"@,
            "Scroll details down"@,
            Command::ScrollDetailsDown,
            details_scopes(),
            seq![control_key('d'), named_key(Named::PageDown)],
        ),
        row(
            "detail_scroll_up"@,
            "Scroll details up"@,
            Command::ScrollDetailsUp,
            details_scopes(),
            seq![control_key('u'), named_key(Named::PageUp)],
        ),
        row(
            "details_copy"@,
            "Copy selected details"@,
            Command::CopyDetails,
            details_scopes(),
            seq![character_key('y')],
        ),
        row(
            "layout_boundary_left"@,
            "Widen Details Pane"@,
            Command::MovePaneBoundaryLeft,
            workspace_scopes(),
            seq![character_key('<')],
        ),
        row(
            "layout_boundary_right"@,
            "Widen Resource Panels"@,
            Command::MovePaneBoundaryRight,
            workspace_scopes(),
            seq![character_key('>')],
        ),
    ]
}

fn register_detail_commands(table: &mut Vec<EffectiveCommand>)
    ensures
        views(final(table)@) == views(old(table)@) + detail_commands(),
{
    register(
        table,
        "detail_view_next",
        "Next detail view",
        Command::NextDetailView,
        new_details_scopes(),
        two_keys(Key::character('l'), Key::named(Named::Right)),
    );
    register(
        table,
        "detail_view_previous",
        "Previous detail view",
        Command::PreviousDetailView,
        new_details_scopes(),
        two_keys(Key::character('h'), Key::named(Named::Left)),
    );
    register(
        table,
        "detail_scroll_down",
        "Scroll details down",
        Command::ScrollDetailsDown,
        new_details_scopes(),
        two_keys(Key::character('d').with_ctrl(), Key::named(Named::PageDown)),
    );
    register(
        table,
        "detail_scroll_up",
        "Scroll details up",
        Command::ScrollDetailsUp,
        new_details_scopes(),
        two_keys(Key::character('u').with_ctrl(), Key::named(Named::PageUp)),
    );
    register(
        table,
        "details_copy",
        "Copy selected details",
        Command::CopyDetails,
        new_details_scopes(),
        one_key(Key::character('y')),
    );
    register(
        table,
        "layout_boundary_left",
        "Widen Details Pane",
        Command::MovePaneBoundaryLeft,
        new_workspace_scopes(),
        one_key(Key::character('<')),
    );
    register(
        table,
        "layout_boundary_right",
        "Widen Resource Panels",
        Command::MovePaneBoundaryRight,
        new_workspace_scopes(),
        one_key(Key::character('>')),
    );
    assert(views(table@) =~= views(old(table)@) + detail_commands());
}

/// Answering a modal. `Esc` leads, so it is the hint a modal shows for backing out.
pub open spec fn modal_commands() -> Seq<CommandModel> {
    seq![
        row(
            "modal_confirm"@,
            "Confirm"@,
            Command::Confirm,
            modal_scopes(),
            seq![character_key('y'), named_key(Named::Enter)],
        ),
        row(
            "modal_cancel"@,
            "Cancel"@,
            Command::Cancel,
            modal_scopes(),
            seq![named_key(Named::Esc), character_key('n')],
        ),
    ]
}

fn register_modal_commands(table: &mut Vec<EffectiveCommand>)
    ensures
        views(final(table)@) == views(old(table)@) + modal_commands(),
{
    register(
        table,
        "modal_confirm",
        "Confirm",
        Command::Confirm,
        new_modal_scopes(),
        two_keys(Key::character('y'), Key::named(Named::Enter)),
    );
    register(
        table,
        "modal_cancel",
        "Cancel",
        Command::Cancel,
        new_modal_scopes(),
        two_keys(Key::named(Named::Esc), Key::character('n')),
    );
    assert(views(table@) =~= views(old(table)@) + modal_commands());
}

/// Lifecycle Commands and the Resource Shell.
pub open spec fn resource_commands() -> Seq<CommandModel> {
    seq![
        row(
            "resource_start"@,
            "Start"@,
            Command::Resource(ResourceCommand::Start),
            resource_scopes(),
            seq![character_key('S')],
        ),
        row(
            "resource_stop"@,
            "Stop"@,
            Command::Resource(ResourceCommand::Stop),
            resource_scopes(),
            seq![character_key('s')],
        ),
        row(
            "resource_restart"@,
            "Restart"@,
            Command::Resource(ResourceCommand::Restart),
            resource_scopes(),
            seq![character_key('r')],
        ),
        row(
            "resource_resume"@,
            "Resume"@,
            Command::Resource(ResourceCommand::Resume),
            resource_scopes(),
            seq![character_key('p')],
        ),
        row(
            "resource_shell"@,
            "Shell"@,
            Command::OpenShell,
            resource_scopes(),
            seq![character_key('E')],
        ),
        row(
            "resource_delete"@,
            "Delete"@,
            Command::Resource(ResourceCommand::Delete),
            resource_scopes(),
            seq![character_key('d')],
        ),
    ]
}

fn register_resource_commands(table: &mut Vec<EffectiveCommand>)
    ensures
        views(final(table)@) == views(old(table)@) + resource_commands(),
{
    register(
        table,
        "resource_start",
        "Start",
        Command::Resource(ResourceCommand::Start),
        new_resource_scopes(),
        one_key(Key::character('S')),
    );
    register(
        table,
        "resource_stop",
        "Stop",
        Command::Resource(ResourceCommand::Stop),
        new_resource_scopes(),
        one_key(Key::character('s')),
    );
    register(
        table,
        "resource_restart",
        "Restart",
        Command::Resource(ResourceCommand::Restart),
        new_resource_scopes(),
        one_key(Key::character('r')),
    );
    register(
        table,
        "resource_resume",
        "Resume",
        Command::Resource(ResourceCommand::Resume),
        new_resource_scopes(),
        one_key(Key::character('p')),
    );
    register(
        table,
        "resource_shell",
        "Shell",
        Command::OpenShell,
        new_resource_scopes(),
        one_key(Key::character('E')),
    );
    register(
        table,
        "resource_delete",
        "Delete",
        Command::Resource(ResourceCommand::Delete),
        new_resource_scopes(),
        one_key(Key::character('d')),
    );
    assert(views(table@) =~= views(old(table)@) + resource_commands());
}

/// The compiled Commands, in registration order.
pub open spec fn builtin_commands() -> Seq<CommandModel> {
    application_commands() + panel_focus_commands() + navigation_commands() + detail_commands() + modal_commands() + resource_commands()
}

/// Builds the compiled table.
pub fn builtin_table() -> (table: Vec<EffectiveCommand>)
    ensures
        views(table@) == builtin_commands(),
{
    let mut table: Vec<EffectiveCommand> = Vec::new();
    register_application_commands(&mut table);
    register_panel_focus_commands(&mut table);
    register_navigation_commands(&mut table);
    register_detail_commands(&mut table);
    register_modal_commands(&mut table);
    register_resource_commands(&mut table);
    assert(views(table@) =~= builtin_commands());
    table
}

} // verus!
