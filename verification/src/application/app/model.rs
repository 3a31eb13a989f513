//! What the application is, and how each event and Command changes it.

use vstd::prelude::*;

use super::state::{
    empty_state, hints_of, FocusedPane, HelpEntryModel, HelpModel, InvocationModel, RunningModel,
    StateModel,
};
use crate::application::command::defaults::NUMBERED_RESOURCE_PANEL_CAPACITY;
use crate::application::command::{
    offered_in, resource_command_text, Command, CommandModel, CommandScope, ResourceCommand,
};
use crate::application::key::shown;
use crate::application::pane_boundary::BoundaryModel;
use crate::application::provider::{PanelModel, ProviderRequestId, RequestModel, ResourceModel};
use crate::application::shell::{
    EffectModel, LifecycleModel, ProcessModel, ResourceShellPresentation, ResourceShellSessionId,
    SessionModel,
};
use crate::application::workspace::model::{
    CompletionModel, DetailTargetModel, LoadModel, LoadRequestModel, WorkspaceModel,
};
use crate::domain::{ProviderModel, TargetModel};
use crate::text::{decimal, first_position};

verus! {

/// The application's complete state, what it is waiting for, and what it has
/// asked the host for.
#[verifier::ext_equal]
pub struct AppModel {
    pub state: StateModel,
    pub commands: Seq<CommandModel>,
    pub next_request_id: u64,
    pub pending_refreshes: Seq<(ProviderRequestId, Seq<char>)>,
    pub boundary_before_drag: Option<BoundaryModel>,
    pub pending_boundary_save: Option<BoundaryModel>,
    pub next_session_id: u64,
    pub pending_effects: Seq<EffectModel>,
    pub quit_requested: bool,
}

/// A fact the application receives.
#[verifier::ext_equal]
#[allow(inconsistent_fields)]
pub enum EventModel {
    ProviderDiscovered { provider: ProviderModel, error: Option<Seq<char>> },
    RefreshTimerElapsed,
    RefreshCompleted {
        request_id: ProviderRequestId,
        provider_id: Seq<char>,
        result: Result<Seq<PanelModel>, Seq<char>>,
    },
    ResourceShellStarted { session_id: ResourceShellSessionId },
    ResourceShellStartFailed { session_id: ResourceShellSessionId, reason: Seq<char> },
    ResourceShellExited { session_id: ResourceShellSessionId },
    ResourceCommandCompleted {
        request_id: ProviderRequestId,
        provider_id: Seq<char>,
        target: TargetModel,
        command: ResourceCommand,
        result: Result<(), Seq<char>>,
    },
    ResourceDetailsCompleted {
        request_id: ProviderRequestId,
        provider_id: Seq<char>,
        target: TargetModel,
        view_id: Seq<char>,
        result: Result<Seq<Seq<char>>, Seq<char>>,
    },
}

/// How far one scroll Command moves through a detail view.
pub const DETAIL_SCROLL_LINES: isize = 10;

/// How far one fast selection Command moves.
pub const FAST_SELECTION_STEP: isize = 5;

/// How many Commands the bar at the bottom of the screen shows.
pub const COMMAND_BAR_ENTRIES: usize = 4;

/// One sentence for every operation Tuivir asked a Provider for and did not
/// get.
pub open spec fn failure_text(
    provider_name: Seq<char>,
    operation: Seq<char>,
    resource_name: Seq<char>,
    target: TargetModel,
    reason: Seq<char>,
) -> Seq<char> {
    provider_name + " "@ + operation + " failed for "@ + resource_name + " ("@ + target.resource_id
        + "): "@ + reason
}

/// Why a snapshot with too many panels is refused.
pub open spec fn panel_overflow_text(provider_name: Seq<char>, count: nat) -> Seq<char> {
    provider_name + " returned "@ + decimal(count)
        + " Resource Panels; Tuivir supports at most "@ + decimal(
        NUMBERED_RESOURCE_PANEL_CAPACITY as nat,
    ) + " Resource Panels so each retains a numbered focus Command"@
}

pub open spec fn provider_ids(providers: Seq<WorkspaceModel>) -> Seq<Seq<char>> {
    providers.map_values(|workspace: WorkspaceModel| workspace.provider.id)
}

pub open spec fn pending_ids(
    pending: Seq<(ProviderRequestId, Seq<char>)>,
) -> Seq<ProviderRequestId> {
    pending.map_values(|entry: (ProviderRequestId, Seq<char>)| entry.0)
}

pub open spec fn pending_providers(
    pending: Seq<(ProviderRequestId, Seq<char>)>,
) -> Seq<Seq<char>> {
    pending.map_values(|entry: (ProviderRequestId, Seq<char>)| entry.1)
}

/// The pending refreshes of every other Provider.
pub open spec fn pending_without(
    pending: Seq<(ProviderRequestId, Seq<char>)>,
    provider_id: Seq<char>,
) -> Seq<(ProviderRequestId, Seq<char>)>
    decreases pending.len(),
{
    if pending.len() == 0 {
        Seq::empty()
    } else {
        let earlier = pending_without(pending.drop_last(), provider_id);
        if pending.last().1 == provider_id {
            earlier
        } else {
            earlier.push(pending.last())
        }
    }
}

/// What identifies a running Resource Command.
pub open spec fn running_keys(running: Seq<RunningModel>) -> Seq<
    (ProviderRequestId, Seq<char>, TargetModel, ResourceCommand),
> {
    running.map_values(
        |entry: RunningModel| (entry.request_id, entry.provider_id, entry.target, entry.command),
    )
}

pub open spec fn session_ids(sessions: Seq<SessionModel>) -> Seq<ResourceShellSessionId> {
    sessions.map_values(|session: SessionModel| session.id)
}

/// Whether a Resource of a Provider has a session with a process, or one that
/// is about to have one.
pub open spec fn has_live_session(
    sessions: Seq<SessionModel>,
    provider_id: Seq<char>,
    target: TargetModel,
) -> bool {
    exists|i: int|
        0 <= i < sessions.len() && (#[trigger] sessions[i]).is_for(provider_id, target)
            && sessions[i].is_live()
}

/// The sessions of every other Resource.
pub open spec fn sessions_without(
    sessions: Seq<SessionModel>,
    provider_id: Seq<char>,
    target: TargetModel,
) -> Seq<SessionModel>
    decreases sessions.len(),
{
    if sessions.len() == 0 {
        Seq::empty()
    } else {
        let earlier = sessions_without(sessions.drop_last(), provider_id, target);
        if sessions.last().is_for(provider_id, target) {
            earlier
        } else {
            earlier.push(sessions.last())
        }
    }
}

/// Whether a Command works on the selected Resource as it is now.
pub open spec fn is_available(command: Command, resource: Option<ResourceModel>) -> bool {
    match command {
        Command::Resource(operation) => resource matches Some(resource)
            && resource.available_commands.contains(operation),
        _ => true,
    }
}

/// Whether the bar at the bottom of the screen may show a Command.
pub open spec fn in_command_bar(entry: CommandModel, resource: Option<ResourceModel>) -> bool {
    is_available(entry.command, resource) && entry.command != Command::ToggleHelp
}

/// The Commands that the bar may show, either the Resource Commands or the
/// others.
pub open spec fn bar_candidates(
    commands: Seq<CommandModel>,
    resource: Option<ResourceModel>,
    resource_commands: bool,
) -> Seq<CommandModel>
    decreases commands.len(),
{
    if commands.len() == 0 {
        Seq::empty()
    } else {
        let earlier = bar_candidates(commands.drop_last(), resource, resource_commands);
        let entry = commands.last();
        if in_command_bar(entry, resource) && (entry.command is Resource) == resource_commands {
            earlier.push(entry)
        } else {
            earlier
        }
    }
}

/// A Command as the bar shows it.
pub open spec fn bar_entry(entry: CommandModel) -> HelpEntryModel {
    HelpEntryModel { key: shown(entry.keys[0]), description: entry.description }
}

/// The first of two lists put together, up to a number of elements.
pub open spec fn at_most<T>(items: Seq<T>, count: int) -> Seq<T> {
    if items.len() <= count {
        items
    } else {
        items.take(count)
    }
}

/// The bar at the bottom of the screen: what can be done with the selected
/// Resource first, then what else can be done here.
pub open spec fn command_bar_of(
    registry: Seq<CommandModel>,
    scope: CommandScope,
    resource: Option<ResourceModel>,
) -> Seq<HelpEntryModel> {
    let offered = offered_in(registry, scope);
    at_most(
        bar_candidates(offered, resource, true) + bar_candidates(offered, resource, false),
        COMMAND_BAR_ENTRIES as int,
    ).map_values(|entry: CommandModel| bar_entry(entry))
}

/// Whether help has anything to say of a Command: a panel that does not exist
/// cannot be focused.
pub open spec fn in_help(entry: CommandModel, panel_count: int) -> bool {
    !(entry.command matches Command::FocusResourcePanel(index) && index >= panel_count)
}

/// A Command as help describes it for one Resource.
pub open spec fn help_entry(entry: CommandModel, resource: ResourceModel) -> HelpEntryModel {
    let unavailable = !is_available(entry.command, Some(resource)) || (entry.command
        == Command::OpenShell && resource.shell is None);
    HelpEntryModel {
        key: shown(entry.keys[0]),
        description: if unavailable {
            entry.description + " (unavailable)"@
        } else {
            entry.description
        },
    }
}

/// Every Command that help lists for one Resource.
pub open spec fn help_entries(
    commands: Seq<CommandModel>,
    resource: ResourceModel,
    panel_count: int,
) -> Seq<HelpEntryModel>
    decreases commands.len(),
{
    if commands.len() == 0 {
        Seq::empty()
    } else {
        let earlier = help_entries(commands.drop_last(), resource, panel_count);
        if in_help(commands.last(), panel_count) {
            earlier.push(help_entry(commands.last(), resource))
        } else {
            earlier
        }
    }
}

/// Whether a Command leaves the Details selection as it is.
pub open spec fn keeps_selection(command: Command) -> bool {
    command is CopyDetails || command is BeginDetailsSelection || command is ExtendDetailsSelection
        || command is ExtendDetailsSelectionAtEdge
}

/// What the application becomes, and the provider work it asks for.
pub type Outcome = (AppModel, Seq<RequestModel>);

impl AppModel {
    pub open spec fn initial(registry: Seq<CommandModel>, boundary: BoundaryModel) -> AppModel {
        AppModel {
            state: StateModel {
                hints: hints_of(registry),
                pane_boundary: boundary,
                ..empty_state()
            },
            commands: registry,
            next_request_id: 1,
            pending_refreshes: Seq::empty(),
            boundary_before_drag: None,
            pending_boundary_save: None,
            next_session_id: 1,
            pending_effects: Seq::empty(),
            quit_requested: false,
        }
    }

    /// Identities are left to allocate: one event or Command takes at most two
    /// request identities and one session identity.
    pub open spec fn can_allocate(self) -> bool {
        self.next_request_id <= u64::MAX - 2 && self.next_session_id < u64::MAX
    }

    pub open spec fn active_workspace(self) -> Option<WorkspaceModel> {
        self.state.active_workspace()
    }

    /// Whether a request loads the Detail View Tab that the Active Workspace
    /// waits for.
    pub open spec fn detail_is_current(self, request: RequestModel) -> bool {
        request matches RequestModel::LoadResourceDetails {
            request_id,
            provider_id,
            target,
            view_id,
        } && self.active_workspace() matches Some(workspace) && workspace.details matches Some(
            details,
        ) && details.awaits(
            LoadRequestModel {
                request_id,
                provider_id,
                target: DetailTargetModel { resource: target, view_id },
            },
        )
    }

    pub open spec fn with_state(self, state: StateModel) -> AppModel {
        AppModel { state, ..self }
    }

    /// One Provider Workspace replaced.
    pub open spec fn with_provider(self, index: int, workspace: WorkspaceModel) -> AppModel {
        self.with_state(
            StateModel { providers: self.state.providers.update(index, workspace), ..self.state },
        )
    }

    /// The Active Workspace replaced, where there is one.
    pub open spec fn with_active(self, workspace: WorkspaceModel) -> AppModel {
        match self.state.active_provider {
            Some(active) => if active < self.state.providers.len() {
                self.with_provider(active as int, workspace)
            } else {
                self
            },
            None => self,
        }
    }

    pub open spec fn with_focused_pane(self, pane: FocusedPane) -> AppModel {
        self.with_state(StateModel { focused_pane: pane, ..self.state })
    }

    pub open spec fn with_error(self, error: Option<Seq<char>>) -> AppModel {
        self.with_state(StateModel { command_error: error, ..self.state })
    }

    /// The structural scope the interface is in: a modal replaces the ordinary
    /// workspace scope; otherwise the focused Pane selects it.
    pub open spec fn active_scope(self) -> CommandScope {
        if self.state.confirmation is Some {
            CommandScope::Confirmation
        } else if self.state.command_error is Some {
            CommandScope::CommandFailure
        } else if self.state.help_overlay is Some {
            CommandScope::HelpOverlay
        } else {
            match self.state.focused_pane {
                FocusedPane::Providers => CommandScope::ProviderSelector,
                FocusedPane::Resources => match self.active_workspace() {
                    Some(workspace) => match workspace.focused_panel_index() {
                        Some(index) => CommandScope::ResourcePanel(index as usize),
                        None => CommandScope::ResourceView,
                    },
                    None => CommandScope::ResourceView,
                },
                FocusedPane::Details => CommandScope::Details,
            }
        }
    }

    /// The Resource selected in the Active Workspace.
    pub open spec fn selected_resource(self) -> Option<ResourceModel> {
        match self.active_workspace() {
            Some(workspace) => workspace.selected_resource(),
            None => None,
        }
    }

    pub open spec fn is_active_provider(self, provider_id: Seq<char>) -> bool {
        self.active_workspace() matches Some(workspace) && workspace.provider.id == provider_id
    }

    /// A refresh of a Provider asked for.
    #[verifier::opaque]
    pub open spec fn refresh_started(self, provider_id: Seq<char>) -> Outcome {
        let request_id = ProviderRequestId(self.next_request_id);
        (
            AppModel {
                next_request_id: (self.next_request_id + 1) as u64,
                pending_refreshes: self.pending_refreshes.push((request_id, provider_id)),
                ..self
            },
            seq![RequestModel::RefreshWorkspace { request_id, provider_id }],
        )
    }

    /// The Active Workspace refreshed, unless a refresh of it is pending.
    #[verifier::opaque]
    pub open spec fn refreshed(self) -> Outcome {
        match self.active_workspace() {
            Some(workspace) => if pending_providers(self.pending_refreshes).contains(
                workspace.provider.id,
            ) {
                (self, Seq::empty())
            } else {
                self.refresh_started(workspace.provider.id)
            },
            None => (self, Seq::empty()),
        }
    }

    /// The work in flight for the Active Workspace abandoned.
    #[verifier::opaque]
    pub open spec fn active_left(self) -> AppModel {
        match self.active_workspace() {
            Some(workspace) => AppModel {
                pending_refreshes: pending_without(
                    self.pending_refreshes,
                    workspace.provider.id,
                ),
                ..self.with_active(workspace.without_pending_detail())
            },
            None => self,
        }
    }

    /// One Provider Workspace made active: the Workspace being left keeps its
    /// navigation, but its in-flight work is abandoned.
    #[verifier::opaque]
    pub open spec fn activated(self, index: usize) -> Outcome {
        if self.state.active_provider == Some(index) {
            (self, Seq::empty())
        } else {
            let left = self.active_left();
            left.with_state(
                StateModel { active_provider: Some(index), ..left.state },
            ).refreshed()
        }
    }

    #[verifier::opaque]
    pub open spec fn provider_moved(self, delta: int) -> Outcome {
        let count = self.state.providers.len();
        match self.state.active_provider {
            Some(active) => if count < 2 {
                (self, Seq::empty())
            } else {
                self.activated(((active + delta) % (count as int)) as usize)
            },
            None => (self, Seq::empty()),
        }
    }

    #[verifier::opaque]
    pub open spec fn provider_discovered(
        self,
        provider: ProviderModel,
        error: Option<Seq<char>>,
    ) -> Outcome {
        let added = self.with_state(
            StateModel {
                providers: self.state.providers.push(WorkspaceModel::new(provider, error)),
                active_provider: match self.state.active_provider {
                    Some(active) => Some(active),
                    None => Some(self.state.providers.len() as usize),
                },
                ..self.state
            },
        );
        if self.state.active_provider is None && error is None {
            added.refresh_started(provider.id)
        } else {
            (added, Seq::empty())
        }
    }

    /// A refresh result applied. Only one that is still pending for its
    /// Provider changes a Workspace.
    #[verifier::opaque]
    pub open spec fn refresh_completed(
        self,
        request_id: ProviderRequestId,
        provider_id: Seq<char>,
        result: Result<Seq<PanelModel>, Seq<char>>,
    ) -> AppModel {
        match first_position(pending_ids(self.pending_refreshes), request_id) {
            Some(i) => {
                let taken = AppModel {
                    pending_refreshes: self.pending_refreshes.remove(i),
                    ..self
                };
                if self.pending_refreshes[i].1 == provider_id {
                    match first_position(provider_ids(self.state.providers), provider_id) {
                        Some(p) => {
                            let workspace = self.state.providers[p];
                            taken.with_provider(
                                p,
                                match result {
                                    Ok(panels) => if panels.len()
                                        > NUMBERED_RESOURCE_PANEL_CAPACITY {
                                        workspace.with_rejected_snapshot(
                                            panel_overflow_text(
                                                workspace.provider.name,
                                                panels.len(),
                                            ),
                                        )
                                    } else {
                                        workspace.reconciled(panels)
                                    },
                                    Err(message) => workspace.with_load_error(message),
                                },
                            )
                        },
                        None => taken,
                    }
                } else {
                    taken
                }
            },
            None => self,
        }
    }

    /// The loaded detail view brought into line with what is on screen.
    #[verifier::opaque]
    pub open spec fn details_synced(self) -> Outcome {
        let request_id = ProviderRequestId(self.next_request_id);
        match self.active_workspace() {
            Some(workspace) => {
                let synced = self.with_active(workspace.with_visible_details(request_id));
                match workspace.detail_load(request_id) {
                    Some(load) => (
                        AppModel { next_request_id: (self.next_request_id + 1) as u64, ..synced },
                        seq![
                            RequestModel::LoadResourceDetails {
                                request_id: load.request_id,
                                provider_id: load.provider_id,
                                target: load.target.resource,
                                view_id: load.target.view_id,
                            },
                        ],
                    ),
                    None => (synced, Seq::empty()),
                }
            },
            None => (self, Seq::empty()),
        }
    }

    #[verifier::opaque]
    pub open spec fn details_completed(self, completion: CompletionModel) -> AppModel {
        match first_position(provider_ids(self.state.providers), completion.load.provider_id) {
            Some(p) => self.with_provider(p, self.state.providers[p].with_completion(completion)),
            None => self,
        }
    }

    /// The result of a Resource Command applied. Only a Command that is still
    /// running answers to one.
    #[verifier::opaque]
    pub open spec fn command_completed(
        self,
        request_id: ProviderRequestId,
        provider_id: Seq<char>,
        target: TargetModel,
        command: ResourceCommand,
        result: Result<(), Seq<char>>,
    ) -> Outcome {
        match first_position(
            running_keys(self.state.running_commands),
            (request_id, provider_id, target, command),
        ) {
            Some(i) => {
                let running = self.state.running_commands[i];
                let taken = self.with_state(
                    StateModel {
                        running_commands: self.state.running_commands.remove(i),
                        ..self.state
                    },
                );
                match result {
                    Err(reason) => (
                        taken.with_error(
                            Some(
                                failure_text(
                                    running.provider_name,
                                    resource_command_text(running.command),
                                    running.resource_name,
                                    running.target,
                                    reason,
                                ),
                            ),
                        ),
                        Seq::empty(),
                    ),
                    Ok(_) => {
                        let succeeded = taken.with_error(None);
                        if succeeded.is_active_provider(running.provider_id) {
                            succeeded.refreshed()
                        } else {
                            (succeeded, Seq::empty())
                        }
                    },
                }
            },
            None => (self, Seq::empty()),
        }
    }

    /// A session with another lifecycle.
    pub open spec fn with_lifecycle(self, index: int, lifecycle: LifecycleModel) -> AppModel {
        self.with_state(
            StateModel {
                resource_shell_sessions: self.state.resource_shell_sessions.update(
                    index,
                    SessionModel { lifecycle, ..self.state.resource_shell_sessions[index] },
                ),
                ..self.state
            },
        )
    }

    /// A starting session whose start came to an end, one way or the other.
    #[verifier::opaque]
    pub open spec fn start_ended(
        self,
        session_id: ResourceShellSessionId,
        lifecycle: LifecycleModel,
    ) -> AppModel {
        match first_position(session_ids(self.state.resource_shell_sessions), session_id) {
            Some(i) => if self.state.resource_shell_sessions[i].lifecycle is Starting {
                self.with_lifecycle(i, lifecycle)
            } else {
                self
            },
            None => self,
        }
    }

    #[verifier::opaque]
    pub open spec fn shell_exited(self, session_id: ResourceShellSessionId) -> Outcome {
        match first_position(session_ids(self.state.resource_shell_sessions), session_id) {
            Some(i) => {
                let exited = self.with_lifecycle(i, LifecycleModel::Exited);
                if exited.is_active_provider(self.state.resource_shell_sessions[i].provider_id) {
                    exited.refreshed()
                } else {
                    (exited, Seq::empty())
                }
            },
            None => (self, Seq::empty()),
        }
    }

    /// A Resource Command sent to its Provider.
    #[verifier::opaque]
    pub open spec fn command_dispatched(self, invocation: InvocationModel) -> Outcome {
        let request_id = ProviderRequestId(self.next_request_id);
        let cleared = self.with_error(None);
        (
            AppModel {
                next_request_id: (self.next_request_id + 1) as u64,
                ..cleared.with_state(
                    StateModel {
                        running_commands: self.state.running_commands.push(
                            RunningModel {
                                request_id,
                                provider_id: invocation.provider_id,
                                provider_name: invocation.provider_name,
                                target: invocation.target,
                                resource_name: invocation.resource_name,
                                command: invocation.command,
                            },
                        ),
                        ..cleared.state
                    },
                )
            },
            seq![
                RequestModel::ExecuteResourceCommand {
                    request_id,
                    provider_id: invocation.provider_id,
                    target: invocation.target,
                    command: invocation.command,
                    state: invocation.state,
                },
            ],
        )
    }

    /// The invocation that a Resource Command means now, where the selected
    /// Resource offers it.
    #[verifier::opaque]
    pub open spec fn invocation(self, command: ResourceCommand) -> Option<InvocationModel> {
        match self.active_workspace() {
            Some(workspace) => match (workspace.selected_target(), workspace.selected_resource()) {
                (Some(target), Some(resource)) => if resource.available_commands.contains(
                    command,
                ) {
                    Some(
                        InvocationModel {
                            provider_id: workspace.provider.id,
                            provider_name: workspace.provider.name,
                            target,
                            resource_name: resource.name,
                            command,
                            state: resource.state,
                        },
                    )
                } else {
                    None
                },
                _ => None,
            },
            None => None,
        }
    }

    /// A Resource Command invoked. Deleting asks first.
    #[verifier::opaque]
    pub open spec fn resource_command(self, command: ResourceCommand) -> Outcome {
        match self.invocation(command) {
            Some(invocation) => if command == ResourceCommand::Delete {
                (
                    self.with_state(StateModel { confirmation: Some(invocation), ..self.state }),
                    Seq::empty(),
                )
            } else {
                self.command_dispatched(invocation)
            },
            None => (self, Seq::empty()),
        }
    }

    /// The open modal accepted: a Resource Command confirmed, or a reported
    /// failure dismissed.
    #[verifier::opaque]
    pub open spec fn confirmed(self) -> Outcome {
        match self.state.confirmation {
            Some(invocation) => self.with_state(
                StateModel { confirmation: None, ..self.state },
            ).command_dispatched(invocation),
            None => (self.with_error(None), Seq::empty()),
        }
    }

    /// The open modal left.
    #[verifier::opaque]
    pub open spec fn cancelled(self) -> AppModel {
        if self.state.confirmation is Some {
            self.with_state(StateModel { confirmation: None, ..self.state })
        } else if self.state.command_error is Some {
            self.with_error(None)
        } else {
            self.with_state(StateModel { help_overlay: None, ..self.state })
        }
    }

    /// The session that starting the selected Resource's shell means now, and
    /// the process it runs.
    #[verifier::opaque]
    pub open spec fn startable_session(self) -> Option<(SessionModel, ProcessModel)> {
        match self.active_workspace() {
            Some(workspace) => match (workspace.selected_target(), workspace.selected_resource()) {
                (Some(target), Some(resource)) => match resource.shell {
                    Some(process) => if workspace.shows_shell() && !has_live_session(
                        self.state.resource_shell_sessions,
                        workspace.provider.id,
                        target,
                    ) {
                        Some(
                            (
                                SessionModel {
                                    id: ResourceShellSessionId(self.next_session_id),
                                    provider_id: workspace.provider.id,
                                    provider_name: workspace.provider.name,
                                    target,
                                    resource_name: resource.name,
                                    lifecycle: LifecycleModel::Starting,
                                },
                                process,
                            ),
                        )
                    } else {
                        None
                    },
                    None => None,
                },
                _ => None,
            },
            None => None,
        }
    }

    /// The visible shell started, in place of an earlier session of the same
    /// Resource that has ended.
    #[verifier::opaque]
    pub open spec fn shell_started(self) -> AppModel {
        match self.startable_session() {
            Some((session, process)) => AppModel {
                next_session_id: (self.next_session_id + 1) as u64,
                pending_effects: self.pending_effects.push(EffectModel::Start { session, process }),
                ..self.with_state(
                    StateModel {
                        resource_shell_sessions: sessions_without(
                            self.state.resource_shell_sessions,
                            session.provider_id,
                            session.target,
                        ).push(session),
                        ..self.state
                    },
                )
            },
            None => self,
        }
    }

    /// The selected Resource's shell opened over the whole Workspace. A
    /// Resource without one asks for nothing.
    #[verifier::opaque]
    pub open spec fn shell_opened(self) -> AppModel {
        match self.active_workspace() {
            Some(workspace) => if workspace.offers_shell() {
                let shown = self.with_active(workspace.with_shell_tab());
                shown.with_state(
                    StateModel {
                        focused_pane: FocusedPane::Details,
                        resource_shell_presentation: ResourceShellPresentation::Enlarged,
                        ..shown.state
                    },
                ).shell_started()
            } else {
                self
            },
            None => self,
        }
    }

    #[verifier::opaque]
    pub open spec fn shell_size_toggled(self) -> AppModel {
        if self.state.visible_session() is Some {
            self.with_state(
                StateModel {
                    resource_shell_presentation: match self.state.resource_shell_presentation {
                        ResourceShellPresentation::Details => ResourceShellPresentation::Enlarged,
                        ResourceShellPresentation::Enlarged => ResourceShellPresentation::Details,
                    },
                    ..self.state
                },
            )
        } else {
            self
        }
    }

    /// The help for the selected Resource in the focused Pane.
    #[verifier::opaque]
    pub open spec fn help(self) -> Option<HelpModel> {
        if self.state.focused_pane == FocusedPane::Providers {
            None
        } else {
            match self.selected_resource() {
                Some(resource) => Some(
                    HelpModel {
                        target: resource.name,
                        entries: help_entries(
                            offered_in(
                                self.commands,
                                if self.state.focused_pane == FocusedPane::Resources {
                                    CommandScope::ResourceView
                                } else {
                                    CommandScope::Details
                                },
                            ),
                            resource,
                            self.panel_count(),
                        ),
                    },
                ),
                None => None,
            }
        }
    }

    /// How many Resource Panels the Active Workspace has.
    pub open spec fn panel_count(self) -> int {
        match self.active_workspace() {
            Some(workspace) => match workspace.load_state {
                LoadModel::Ready(panels) => panels.len() as int,
                _ => 0,
            },
            None => 0,
        }
    }

    /// Open help put away; otherwise the help for the selected Resource.
    #[verifier::opaque]
    pub open spec fn help_toggled(self) -> AppModel {
        self.with_state(
            StateModel {
                help_overlay: if self.state.help_overlay is Some {
                    None
                } else {
                    self.help()
                },
                ..self.state
            },
        )
    }

    /// A Resource Panel focused by its position.
    #[verifier::opaque]
    pub open spec fn panel_focused(self, index: int) -> AppModel {
        match self.active_workspace() {
            Some(workspace) => match workspace.panel_id_at(index) {
                Some(id) => self.with_active(workspace.with_focus(id)).with_focused_pane(
                    FocusedPane::Resources,
                ),
                None => self,
            },
            None => self,
        }
    }

    /// Where the focused Pane stands among all Panes: the providers first, then
    /// every Resource Panel, then the Details.
    pub open spec fn pane_index(self) -> int {
        match self.state.focused_pane {
            FocusedPane::Providers => 0,
            FocusedPane::Resources => match self.active_workspace() {
                Some(workspace) => match workspace.focused_panel_index() {
                    Some(index) => index + 1,
                    None => 0,
                },
                None => 0,
            },
            FocusedPane::Details => self.panel_count() + 1,
        }
    }

    /// The Pane at a position focused.
    #[verifier::opaque]
    pub open spec fn pane_focused(self, index: int) -> AppModel {
        if index == 0 {
            self.with_focused_pane(FocusedPane::Providers)
        } else if index <= self.panel_count() {
            self.panel_focused(index - 1)
        } else {
            self.with_focused_pane(FocusedPane::Details)
        }
    }

    /// Focus moved around the ring of Panes. Without a ready Workspace only the
    /// providers can be focused.
    #[verifier::opaque]
    pub open spec fn focus_cycled(self, delta: int) -> AppModel {
        match self.active_workspace() {
            Some(workspace) => if workspace.load_state is Ready {
                self.pane_focused((self.pane_index() + delta) % (self.panel_count() + 2))
            } else {
                self.with_focused_pane(FocusedPane::Providers)
            },
            None => self.with_focused_pane(FocusedPane::Providers),
        }
    }

    #[verifier::opaque]
    pub open spec fn selection_moved(self, delta: int) -> AppModel {
        match self.active_workspace() {
            Some(workspace) => self.with_active(workspace.with_focused_selection_moved(delta)),
            None => self,
        }
    }

    /// The selection moved in whichever Pane has focus.
    #[verifier::opaque]
    pub open spec fn selected_by_focus(self, delta: int) -> Outcome {
        match self.state.focused_pane {
            FocusedPane::Providers => self.provider_moved(delta),
            FocusedPane::Resources => (self.selection_moved(delta), Seq::empty()),
            FocusedPane::Details => (self, Seq::empty()),
        }
    }

    pub open spec fn with_boundary(self, boundary: BoundaryModel) -> AppModel {
        self.with_state(StateModel { pane_boundary: boundary, ..self.state })
    }

    /// The Pane Boundary moved by a Command: a share that changed is to be
    /// saved.
    #[verifier::opaque]
    pub open spec fn boundary_resized(self, boundary: BoundaryModel) -> AppModel {
        AppModel {
            pending_boundary_save: if boundary.percent != self.state.pane_boundary.percent {
                Some(boundary)
            } else {
                self.pending_boundary_save
            },
            ..self.with_boundary(boundary)
        }
    }

    /// The Pane Boundary let go: a share that the drag changed is to be saved.
    #[verifier::opaque]
    pub open spec fn boundary_released(self) -> AppModel {
        let released = self.state.pane_boundary.released();
        AppModel {
            boundary_before_drag: None,
            pending_boundary_save: match self.boundary_before_drag {
                Some(before) => if before.percent != released.percent {
                    Some(released)
                } else {
                    self.pending_boundary_save
                },
                None => self.pending_boundary_save,
            },
            ..self.with_boundary(released)
        }
    }

    /// A Resource selected by the positions of its panel and of itself.
    #[verifier::opaque]
    pub open spec fn resource_selected(self, panel: int, resource: int) -> AppModel {
        match self.active_workspace() {
            Some(workspace) => match workspace.panel_id_at(panel) {
                Some(id) => self.with_active(
                    workspace.with_focus(id).with_resource_selected_at(resource),
                ).with_focused_pane(FocusedPane::Resources),
                None => self,
            },
            None => self,
        }
    }

    /// The selected Details text handed to the host.
    #[verifier::opaque]
    pub open spec fn details_copied(self) -> AppModel {
        self.with_state(
            StateModel {
                pending_details_copy: match self.active_workspace() {
                    Some(workspace) => workspace.selected_text(),
                    None => None,
                },
                ..self.state
            },
        )
    }

    #[verifier::opaque]
    pub open spec fn selection_begun(self, line: u16, column: u16) -> AppModel {
        let focused = self.with_focused_pane(FocusedPane::Details);
        match self.active_workspace() {
            Some(workspace) => focused.with_active(workspace.with_selection_begun(line, column)),
            None => focused,
        }
    }

    #[verifier::opaque]
    pub open spec fn selection_extended(self, line: u16, column: u16) -> AppModel {
        match self.active_workspace() {
            Some(workspace) => self.with_active(workspace.with_selection_extended(line, column)),
            None => self,
        }
    }

    /// A tab of the selected Resource chosen by its position.
    #[verifier::opaque]
    pub open spec fn tab_activated(self, index: int) -> AppModel {
        let focused = self.with_focused_pane(FocusedPane::Details);
        match self.active_workspace() {
            Some(workspace) => focused.with_active(workspace.with_tab_selected_at(index)),
            None => focused,
        }
    }

    /// The Details selection carried past an edge of the viewport.
    #[verifier::opaque]
    pub open spec fn selection_extended_at_edge(
        self,
        above: bool,
        column: u16,
        visible_rows: u16,
    ) -> AppModel {
        match self.active_workspace() {
            Some(workspace) => self.with_active(
                workspace.with_details_scrolled(
                    if above {
                        -1
                    } else {
                        1
                    },
                ).with_selection_extended(
                    if above || visible_rows == 0 {
                        0
                    } else {
                        (visible_rows - 1) as u16
                    },
                    column,
                ),
            ),
            None => self,
        }
    }

    /// The Details selection given up, except by the Commands that are about
    /// it.
    #[verifier::opaque]
    pub open spec fn selection_left(self, command: Command) -> AppModel {
        match self.active_workspace() {
            Some(workspace) => if keeps_selection(command) {
                self
            } else {
                self.with_active(workspace.without_selection())
            },
            None => self,
        }
    }

    /// What a Command that asks a Provider for nothing makes of the
    /// application.
    #[verifier::opaque]
    pub open spec fn carried_out(self, command: Command) -> AppModel {
        match command {
            Command::Quit => AppModel { quit_requested: true, ..self },
            Command::ToggleHelp => self.help_toggled(),
            Command::MovePaneBoundaryLeft => self.boundary_resized(
                self.state.pane_boundary.moved_left(),
            ),
            Command::MovePaneBoundaryRight => self.boundary_resized(
                self.state.pane_boundary.moved_right(),
            ),
            Command::GrabPaneBoundary(column) => AppModel {
                boundary_before_drag: Some(self.state.pane_boundary),
                ..self.with_boundary(self.state.pane_boundary.grabbed_at(column))
            },
            Command::SetPaneBoundary(share) => self.with_boundary(
                self.state.pane_boundary.dragged_to(share),
            ),
            Command::ReleasePaneBoundary => self.boundary_released(),
            Command::FocusProviders => self.with_focused_pane(FocusedPane::Providers),
            Command::FocusResourcePanel(index) => self.panel_focused(index as int),
            Command::FocusDetails => self.with_focused_pane(FocusedPane::Details),
            Command::FocusNextPane => self.focus_cycled(1),
            Command::FocusPreviousPane => self.focus_cycled(-1),
            Command::SelectNextFast => self.selection_moved(FAST_SELECTION_STEP as int),
            Command::SelectPreviousFast => self.selection_moved(-FAST_SELECTION_STEP),
            Command::NextDetailView => self.tab_moved(1),
            Command::PreviousDetailView => self.tab_moved(-1),
            Command::ScrollDetailsDown => self.details_scrolled(DETAIL_SCROLL_LINES as int),
            Command::ScrollDetailsUp => self.details_scrolled(-DETAIL_SCROLL_LINES),
            Command::CopyDetails => self.details_copied(),
            Command::BeginDetailsSelection { line, column } => self.selection_begun(line, column),
            Command::ExtendDetailsSelection { line, column } => self.selection_extended(
                line,
                column,
            ),
            Command::ExtendDetailsSelectionAtEdge {
                above,
                column,
                visible_rows,
            } => self.selection_extended_at_edge(above, column, visible_rows),
            Command::OpenShell => self.shell_opened(),
            Command::StartResourceShell => self.shell_started(),
            Command::ToggleResourceShellSize => self.shell_size_toggled(),
            Command::Cancel => self.cancelled(),
            Command::SelectResource { panel, resource } => self.resource_selected(
                panel as int,
                resource as int,
            ),
            Command::ActivateDetailView(index) => self.tab_activated(index as int),
            Command::ScrollResourcePanelUp(panel) => self.panel_scrolled(panel as int, -1),
            Command::ScrollResourcePanelDown(panel) => self.panel_scrolled(panel as int, 1),
            _ => self,
        }
    }

    #[verifier::opaque]
    pub open spec fn tab_moved(self, delta: int) -> AppModel {
        match self.active_workspace() {
            Some(workspace) => self.with_active(workspace.with_tab_moved(delta)),
            None => self,
        }
    }

    #[verifier::opaque]
    pub open spec fn details_scrolled(self, delta: int) -> AppModel {
        match self.active_workspace() {
            Some(workspace) => self.with_active(workspace.with_details_scrolled(delta)),
            None => self,
        }
    }

    #[verifier::opaque]
    pub open spec fn panel_scrolled(self, panel: int, delta: int) -> AppModel {
        match self.active_workspace() {
            Some(workspace) => self.with_active(workspace.with_selection_moved_at(panel, delta)),
            None => self,
        }
    }

    /// A Command carried out, before the details and the bar follow.
    #[verifier::opaque]
    pub open spec fn dispatched(self, command: Command) -> Outcome {
        let left = self.selection_left(command);
        match command {
            Command::Refresh => left.refreshed(),
            Command::SelectNext => left.selected_by_focus(1),
            Command::SelectPrevious => left.selected_by_focus(-1),
            Command::NextWorkspace => left.provider_moved(1),
            Command::PreviousWorkspace => left.provider_moved(-1),
            Command::Confirm => left.confirmed(),
            Command::Resource(operation) => left.resource_command(operation),
            Command::ActivateProviderWorkspace(index) => if index < left.state.providers.len() {
                left.with_focused_pane(FocusedPane::Providers).activated(index)
            } else {
                (left, Seq::empty())
            },
            _ => (left.carried_out(command), Seq::empty()),
        }
    }

    /// An event applied, before the details and the bar follow.
    #[verifier::opaque]
    pub open spec fn applied(self, event: EventModel) -> Outcome {
        match event {
            EventModel::ProviderDiscovered { provider, error } => self.provider_discovered(
                provider,
                error,
            ),
            EventModel::RefreshTimerElapsed => self.refreshed(),
            EventModel::RefreshCompleted { request_id, provider_id, result } => (
                self.refresh_completed(request_id, provider_id, result),
                Seq::empty(),
            ),
            EventModel::ResourceShellStarted { session_id } => (
                self.start_ended(session_id, LifecycleModel::Running),
                Seq::empty(),
            ),
            EventModel::ResourceShellStartFailed { session_id, reason } => (
                self.start_ended(session_id, LifecycleModel::StartFailed(reason)),
                Seq::empty(),
            ),
            EventModel::ResourceShellExited { session_id } => self.shell_exited(session_id),
            EventModel::ResourceCommandCompleted {
                request_id,
                provider_id,
                target,
                command,
                result,
            } => self.command_completed(request_id, provider_id, target, command, result),
            EventModel::ResourceDetailsCompleted {
                request_id,
                provider_id,
                target,
                view_id,
                result,
            } => (
                self.details_completed(
                    CompletionModel {
                        load: LoadRequestModel {
                            request_id,
                            provider_id,
                            target: DetailTargetModel { resource: target, view_id },
                        },
                        result,
                    },
                ),
                Seq::empty(),
            ),
        }
    }

    #[verifier::opaque]
    pub open spec fn bar_updated(self) -> AppModel {
        self.with_state(
            StateModel {
                command_bar: command_bar_of(
                    self.commands,
                    self.active_scope(),
                    self.selected_resource(),
                ),
                ..self.state
            },
        )
    }

    /// The details and the bar brought in line after a change.
    pub open spec fn followed_up(outcome: Outcome) -> Outcome {
        let (synced, loads) = outcome.0.details_synced();
        (synced.bar_updated(), outcome.1 + loads)
    }

    /// What one event makes of the application.
    pub open spec fn updated(self, event: EventModel) -> Outcome {
        AppModel::followed_up(self.applied(event))
    }

    /// What one Command makes of the application.
    pub open spec fn invoked(self, command: Command) -> Outcome {
        AppModel::followed_up(self.dispatched(command))
    }
}

} // verus!
