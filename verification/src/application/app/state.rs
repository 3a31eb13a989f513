//! The state that the renderer reads.

use vstd::prelude::*;
use vstd::string::*;

use crate::application::command::defaults::NUMBERED_RESOURCE_PANEL_CAPACITY;
use crate::application::command::{hint, Command, CommandModel, CommandRegistry, ResourceCommand};
use crate::application::key::shown;
use crate::application::pane_boundary::{default_boundary, BoundaryModel, PaneBoundary};
use crate::application::provider::ProviderRequestId;
use crate::application::shell::{
    ResourceShellPresentation, ResourceShellSession, ResourceShellSessionLifecycle, SessionModel,
};
use crate::application::workspace::model::WorkspaceModel;
use crate::application::workspace::ProviderWorkspaceState;
use crate::domain::{ProviderId, ResourceState, ResourceTarget, TargetModel};
use crate::text::{get, opt_view, views};

verus! {

/// The Pane that the keyboard drives.
#[derive(Clone, Copy, Debug, Default, PartialEq, Eq, Structural)]
pub enum FocusedPane {
    Providers,
    /// The focused Resource Panel is owned by the Active Workspace.
    #[default]
    Resources,
    Details,
}

/// One dispatched Resource Command awaiting its completion.
#[derive(Debug, PartialEq, Eq)]
pub struct RunningResourceCommand {
    pub request_id: ProviderRequestId,
    pub provider_id: ProviderId,
    pub provider_name: String,
    pub target: ResourceTarget,
    pub resource_name: String,
    pub command: ResourceCommand,
}

/// What a [`RunningResourceCommand`] records.
#[verifier::ext_equal]
pub struct RunningModel {
    pub request_id: ProviderRequestId,
    pub provider_id: Seq<char>,
    pub provider_name: Seq<char>,
    pub target: TargetModel,
    pub resource_name: Seq<char>,
    pub command: ResourceCommand,
}

impl View for RunningResourceCommand {
    type V = RunningModel;

    open spec fn view(&self) -> RunningModel {
        RunningModel {
            request_id: self.request_id,
            provider_id: self.provider_id@,
            provider_name: self.provider_name@,
            target: self.target@,
            resource_name: self.resource_name@,
            command: self.command,
        }
    }
}

/// One key and what it does.
#[derive(Debug, PartialEq, Eq)]
pub struct HelpEntry {
    pub key: String,
    pub description: String,
}

/// What a [`HelpEntry`] says.
#[verifier::ext_equal]
pub struct HelpEntryModel {
    pub key: Seq<char>,
    pub description: Seq<char>,
}

impl View for HelpEntry {
    type V = HelpEntryModel;

    open spec fn view(&self) -> HelpEntryModel {
        HelpEntryModel { key: self.key@, description: self.description@ }
    }
}

/// The contextual help for one Resource.
#[derive(Debug, PartialEq, Eq)]
pub struct HelpOverlay {
    pub target: String,
    pub entries: Vec<HelpEntry>,
}

/// What a [`HelpOverlay`] says.
#[verifier::ext_equal]
pub struct HelpModel {
    pub target: Seq<char>,
    pub entries: Seq<HelpEntryModel>,
}

impl View for HelpOverlay {
    type V = HelpModel;

    open spec fn view(&self) -> HelpModel {
        HelpModel { target: self.target@, entries: views(self.entries@) }
    }
}

/// A Resource Command together with everything needed to carry it out.
#[derive(Debug, PartialEq, Eq)]
pub struct ResourceCommandInvocation {
    pub provider_id: ProviderId,
    pub provider_name: String,
    pub target: ResourceTarget,
    pub resource_name: String,
    pub command: ResourceCommand,
    /// What the Resource was doing when the Command was invoked, so the prompt
    /// can say what confirming will really do and the request can carry it on.
    pub state: Option<ResourceState>,
}

/// What a [`ResourceCommandInvocation`] asks for.
#[verifier::ext_equal]
pub struct InvocationModel {
    pub provider_id: Seq<char>,
    pub provider_name: Seq<char>,
    pub target: TargetModel,
    pub resource_name: Seq<char>,
    pub command: ResourceCommand,
    pub state: Option<ResourceState>,
}

impl View for ResourceCommandInvocation {
    type V = InvocationModel;

    open spec fn view(&self) -> InvocationModel {
        InvocationModel {
            provider_id: self.provider_id@,
            provider_name: self.provider_name@,
            target: self.target@,
            resource_name: self.resource_name@,
            command: self.command,
            state: self.state,
        }
    }
}

/// First effective bindings projected for inline display.
#[derive(Debug, PartialEq, Eq)]
pub struct KeyHints {
    pub focus_providers: Option<String>,
    pub focus_resource_panels: Vec<Option<String>>,
    pub focus_details: Option<String>,
}

/// What [`KeyHints`] show.
#[verifier::ext_equal]
pub struct HintsModel {
    pub focus_providers: Option<Seq<char>>,
    pub focus_resource_panels: Seq<Option<Seq<char>>>,
    pub focus_details: Option<Seq<char>>,
}

pub open spec fn optional_texts(texts: Seq<Option<String>>) -> Seq<Option<Seq<char>>> {
    texts.map_values(|text: Option<String>| opt_view(text))
}

impl View for KeyHints {
    type V = HintsModel;

    open spec fn view(&self) -> HintsModel {
        HintsModel {
            focus_providers: opt_view(self.focus_providers),
            focus_resource_panels: optional_texts(self.focus_resource_panels@),
            focus_details: opt_view(self.focus_details),
        }
    }
}

/// No hints at all.
pub open spec fn no_hints() -> HintsModel {
    HintsModel { focus_providers: None, focus_resource_panels: Seq::empty(), focus_details: None }
}

/// How a Command's preferred key is shown.
pub open spec fn hint_text(registry: Seq<CommandModel>, command: Command) -> Option<Seq<char>> {
    match hint(registry, command) {
        Some(key) => Some(shown(key)),
        None => None,
    }
}

/// The hints that a registry gives.
pub open spec fn hints_of(registry: Seq<CommandModel>) -> HintsModel {
    HintsModel {
        focus_providers: hint_text(registry, Command::FocusProviders),
        focus_resource_panels: Seq::new(
            NUMBERED_RESOURCE_PANEL_CAPACITY as nat,
            |i: int| hint_text(registry, Command::FocusResourcePanel(i as usize)),
        ),
        focus_details: hint_text(registry, Command::FocusDetails),
    }
}

fn key_hint(registry: &CommandRegistry, command: Command) -> (text: Option<String>)
    ensures
        opt_view(text) == hint_text(registry@, command),
{
    match registry.first_key(command) {
        Some(key) => Some(key.to_string()),
        None => None,
    }
}

impl KeyHints {
    pub fn from_registry(registry: &CommandRegistry) -> (hints: Self)
        ensures
            hints@ == hints_of(registry@),
    {
        let mut panels: Vec<Option<String>> = Vec::new();
        let ghost all = hints_of(registry@).focus_resource_panels;
        let mut i: usize = 0;
        assert(optional_texts(panels@) =~= all.take(0));
        while i < NUMBERED_RESOURCE_PANEL_CAPACITY
            invariant
                i <= NUMBERED_RESOURCE_PANEL_CAPACITY,
                all == hints_of(registry@).focus_resource_panels,
                optional_texts(panels@) == all.take(i as int),
            decreases NUMBERED_RESOURCE_PANEL_CAPACITY - i,
        {
            let ghost before = panels@;
            let text = key_hint(registry, Command::FocusResourcePanel(i));
            panels.push(text);
            proof {
                assert(all[i as int] == opt_view(text));
                assert(optional_texts(panels@) =~= optional_texts(before).push(opt_view(text)));
                assert(all.take(i + 1) =~= all.take(i as int).push(all[i as int]));
            }
            i = i + 1;
        }
        assert(all.take(i as int) =~= all);
        KeyHints {
            focus_providers: key_hint(registry, Command::FocusProviders),
            focus_resource_panels: panels,
            focus_details: key_hint(registry, Command::FocusDetails),
        }
    }
}

impl Default for KeyHints {
    fn default() -> (hints: Self)
        ensures
            hints@ == no_hints(),
    {
        let hints = KeyHints {
            focus_providers: None,
            focus_resource_panels: Vec::new(),
            focus_details: None,
        };
        assert(hints@.focus_resource_panels =~= Seq::empty());
        hints
    }
}

/// Everything the renderer draws.
pub struct AppState {
    pub providers: Vec<ProviderWorkspaceState>,
    pub focused_pane: FocusedPane,
    /// Index into `providers` of the currently active provider, the one whose
    /// Provider Workspace is visible and being refreshed.
    ///
    /// `None` represents startup before any installed provider is discovered.
    pub active_provider: Option<usize>,
    /// Where the Resource Panels give way to the Details Pane.
    ///
    /// One share for the whole run, so moving between Provider Workspaces finds
    /// the Panes the size the user left them.
    pub pane_boundary: PaneBoundary,
    pub help_overlay: Option<HelpOverlay>,
    pub confirmation: Option<ResourceCommandInvocation>,
    pub command_error: Option<String>,
    /// Stable Resource Shell Session identities and user-visible lifecycles.
    /// The host owns all live terminal and process objects keyed by these IDs.
    pub resource_shell_sessions: Vec<ResourceShellSession>,
    /// Where a visible Resource Shell Session is drawn.
    pub resource_shell_presentation: ResourceShellPresentation,
    /// Dispatched Resource Commands that have not completed yet, in dispatch
    /// order.
    ///
    /// Each entry stays attached to the Provider and Resource it was
    /// dispatched for until completion, so navigating to another Resource or
    /// Provider Workspace never discards one, and the shell can show a global
    /// progress status that identifies its target.
    pub running_commands: Vec<RunningResourceCommand>,
    /// The first effective binding for each Command whose key is shown inline,
    /// derived from the same registry that drives dispatch and help so the
    /// rendered hints cannot drift. `None` means the Command is unbound and its
    /// hint is omitted.
    pub hints: KeyHints,
    /// A compact, scope-correct subset of Commands shown at the bottom of the
    /// screen. The help overlay remains the complete reference.
    pub command_bar: Vec<HelpEntry>,
    /// The selected Details text a Copy Command asked the host to place on the
    /// clipboard.
    pub pending_details_copy: Option<String>,
}

/// What an [`AppState`] holds.
#[verifier::ext_equal]
pub struct StateModel {
    pub providers: Seq<WorkspaceModel>,
    pub focused_pane: FocusedPane,
    pub active_provider: Option<usize>,
    pub pane_boundary: BoundaryModel,
    pub help_overlay: Option<HelpModel>,
    pub confirmation: Option<InvocationModel>,
    pub command_error: Option<Seq<char>>,
    pub resource_shell_sessions: Seq<SessionModel>,
    pub resource_shell_presentation: ResourceShellPresentation,
    pub running_commands: Seq<RunningModel>,
    pub hints: HintsModel,
    pub command_bar: Seq<HelpEntryModel>,
    pub pending_details_copy: Option<Seq<char>>,
}

impl View for AppState {
    type V = StateModel;

    open spec fn view(&self) -> StateModel {
        StateModel {
            providers: views(self.providers@),
            focused_pane: self.focused_pane,
            active_provider: self.active_provider,
            pane_boundary: self.pane_boundary@,
            help_overlay: opt_view(self.help_overlay),
            confirmation: opt_view(self.confirmation),
            command_error: opt_view(self.command_error),
            resource_shell_sessions: views(self.resource_shell_sessions@),
            resource_shell_presentation: self.resource_shell_presentation,
            running_commands: views(self.running_commands@),
            hints: self.hints@,
            command_bar: views(self.command_bar@),
            pending_details_copy: opt_view(self.pending_details_copy),
        }
    }
}

/// The state before anything was discovered, with nothing bound.
pub open spec fn empty_state() -> StateModel {
    StateModel {
        providers: Seq::empty(),
        focused_pane: FocusedPane::Resources,
        active_provider: None,
        pane_boundary: default_boundary(),
        help_overlay: None,
        confirmation: None,
        command_error: None,
        resource_shell_sessions: Seq::empty(),
        resource_shell_presentation: ResourceShellPresentation::Details,
        running_commands: Seq::empty(),
        hints: no_hints(),
        command_bar: Seq::empty(),
        pending_details_copy: None,
    }
}

/// The first session for one Resource of one Provider.
pub open spec fn session_for(
    sessions: Seq<SessionModel>,
    provider_id: Seq<char>,
    target: TargetModel,
) -> Option<SessionModel>
    decreases sessions.len(),
{
    if sessions.len() == 0 {
        None
    } else if sessions[0].is_for(provider_id, target) {
        Some(sessions[0])
    } else {
        session_for(sessions.drop_first(), provider_id, target)
    }
}

fn find_session<'a>(
    sessions: &'a Vec<ResourceShellSession>,
    provider_id: &ProviderId,
    target: &ResourceTarget,
) -> (session: Option<&'a ResourceShellSession>)
    ensures
        opt_view(session) == session_for(views(sessions@), provider_id@, target@),
{
    let ghost all = views(sessions@);
    let mut i: usize = 0;
    assert(all.skip(0) =~= all);
    while i < sessions.len()
        invariant
            i <= sessions.len(),
            all == views(sessions@),
            session_for(all, provider_id@, target@) == session_for(
                all.skip(i as int),
                provider_id@,
                target@,
            ),
        decreases sessions.len() - i,
    {
        assert(all.skip(i as int)[0] == sessions@[i as int]@);
        assert(all.skip(i as int).drop_first() =~= all.skip(i + 1));
        if sessions[i].is_for(provider_id, target) {
            return Some(&sessions[i]);
        }
        i = i + 1;
    }
    None
}

impl StateModel {
    /// The Provider Workspace visible to the user.
    pub open spec fn active_workspace(self) -> Option<WorkspaceModel> {
        match self.active_provider {
            Some(active) => get(self.providers, active as int),
            None => None,
        }
    }

    /// The session whose Shell Detail View Tab is visible.
    pub open spec fn visible_session(self) -> Option<SessionModel> {
        match self.active_workspace() {
            Some(workspace) => match workspace.selected_target() {
                Some(target) => if workspace.shows_shell() {
                    session_for(self.resource_shell_sessions, workspace.provider.id, target)
                } else {
                    None
                },
                None => None,
            },
            None => None,
        }
    }

    /// The visible session while it has a process.
    pub open spec fn visible_running_session(self) -> Option<SessionModel> {
        match self.visible_session() {
            Some(session) => if session.lifecycle is Running {
                Some(session)
            } else {
                None
            },
            None => None,
        }
    }

    /// The visible session while it is drawn over the whole Workspace.
    pub open spec fn enlarged_session(self) -> Option<SessionModel> {
        if self.resource_shell_presentation == ResourceShellPresentation::Enlarged {
            self.visible_session()
        } else {
            None
        }
    }
}

impl Default for AppState {
    fn default() -> (state: Self)
        ensures
            state@ == empty_state(),
    {
        let state = AppState {
            providers: Vec::new(),
            focused_pane: FocusedPane::Resources,
            active_provider: None,
            pane_boundary: PaneBoundary::default(),
            help_overlay: None,
            confirmation: None,
            command_error: None,
            resource_shell_sessions: Vec::new(),
            resource_shell_presentation: ResourceShellPresentation::Details,
            running_commands: Vec::new(),
            hints: KeyHints::default(),
            command_bar: Vec::new(),
            pending_details_copy: None,
        };
        assert(state@ =~= empty_state());
        state
    }
}

impl AppState {
    /// The index of the Active Workspace.
    pub fn active_index(&self) -> (index: Option<usize>)
        ensures
            index matches Some(i) ==> i < self.providers.len() && self.active_provider == Some(i)
                && self@.active_workspace() == Some(self@.providers[i as int]),
            index is None ==> self@.active_workspace() is None,
    {
        match self.active_provider {
            Some(active) => if active < self.providers.len() {
                Some(active)
            } else {
                None
            },
            None => None,
        }
    }

    /// The single Provider Workspace currently visible to the user.
    pub fn active_workspace(&self) -> (workspace: Option<&ProviderWorkspaceState>)
        ensures
            opt_view(workspace) == self@.active_workspace(),
    {
        match self.active_index() {
            Some(active) => Some(&self.providers[active]),
            None => None,
        }
    }

    /// The session whose Shell Detail View Tab is currently visible, if it has
    /// already been explicitly started.
    pub fn visible_resource_shell_session(&self) -> (session: Option<&ResourceShellSession>)
        ensures
            opt_view(session) == self@.visible_session(),
    {
        let workspace = match self.active_workspace() {
            Some(workspace) => workspace,
            None => return None,
        };
        if !workspace.selected_resource_shell_tab() {
            return None;
        }
        let target = match workspace.selected_resource_target() {
            Some(target) => target,
            None => return None,
        };
        find_session(&self.resource_shell_sessions, workspace.id(), &target)
    }

    /// The visible session while its process runs.
    pub fn visible_running_resource_shell_session(&self) -> (session: Option<
        &ResourceShellSession,
    >)
        ensures
            opt_view(session) == self@.visible_running_session(),
    {
        match self.visible_resource_shell_session() {
            Some(session) => match &session.lifecycle {
                ResourceShellSessionLifecycle::Running => Some(session),
                _ => None,
            },
            None => None,
        }
    }

    /// The visible session while it is drawn over the whole Workspace.
    pub fn enlarged_resource_shell_session(&self) -> (session: Option<&ResourceShellSession>)
        ensures
            opt_view(session) == self@.enlarged_session(),
    {
        if self.resource_shell_presentation == ResourceShellPresentation::Enlarged {
            self.visible_resource_shell_session()
        } else {
            None
        }
    }
}

} // verus!
