//! What holds over the whole life of an application.

use vstd::prelude::*;

use super::detail_laws::{lemma_applied, lemma_dispatched, lemma_synced};
use super::laws::{
    law_a_new_application_is_well_formed, law_commands_keep_the_application_well_formed,
    law_events_keep_the_application_well_formed, lemma_applying_allocates_at_most_one,
    lemma_dispatching_allocates_at_most_one, lemma_untouched_keeps_well_formed,
};
use super::model::{AppModel, EventModel, Outcome};
use super::state::{FocusedPane, StateModel};
use crate::application::command::{Command, CommandModel};
use crate::application::pane_boundary::BoundaryModel;
use crate::application::shell::{EffectModel, ResourceShellPresentation};
use crate::application::workspace::model::WorkspaceModel;
use crate::domain::ProviderModel;

verus! {

/// The Providers of an application, in the order it lists them.
pub open spec fn listed_providers(app: AppModel) -> Seq<ProviderModel> {
    app.state.providers.map_values(|workspace: WorkspaceModel| workspace.provider)
}

/// The identity of the session that an effect starts.
pub open spec fn started_session(effect: EffectModel) -> int {
    match effect {
        EffectModel::Start { session, .. } => session.id.0 as int,
    }
}

impl AppModel {
    /// Whether no session was started.
    pub open spec fn starts_no_session(self, before: AppModel) -> bool {
        &&& self.pending_effects == before.pending_effects
        &&& self.next_session_id == before.next_session_id
    }

    /// Whether one session was started, behind the effects queued before it and
    /// with the next identity.
    pub open spec fn starts_one_session(self, before: AppModel) -> bool {
        &&& self.pending_effects.len() == before.pending_effects.len() + 1
        &&& self.pending_effects.drop_last() == before.pending_effects
        &&& started_session(self.pending_effects.last()) == before.next_session_id
        &&& self.next_session_id == before.next_session_id + 1
    }
}

proof fn lemma_follow_up_starts_no_session(outcome: Outcome)
    ensures
        AppModel::followed_up(outcome).0.starts_no_session(outcome.0),
{
    reveal(AppModel::details_synced);
    reveal(AppModel::bar_updated);
}

proof fn lemma_activating_starts_no_session(app: AppModel, index: usize)
    ensures
        app.activated(index).0.starts_no_session(app),
        app.refreshed().0.starts_no_session(app),
{
    reveal(AppModel::activated);
    reveal(AppModel::active_left);
    reveal(AppModel::refreshed);
    reveal(AppModel::refresh_started);
}

proof fn lemma_moving_starts_no_session(app: AppModel, delta: int)
    ensures
        app.provider_moved(delta).0.starts_no_session(app),
        app.selected_by_focus(delta).0.starts_no_session(app),
{
    reveal(AppModel::provider_moved);
    reveal(AppModel::selected_by_focus);
    reveal(AppModel::selection_moved);
    assert forall|index: usize| #[trigger] app.activated(index).0.starts_no_session(app) by {
        lemma_activating_starts_no_session(app, index);
    }
}

proof fn lemma_shell_started(app: AppModel)
    requires
        app.next_session_id < u64::MAX,
    ensures
        app.shell_started().starts_no_session(app) || app.shell_started().starts_one_session(app),
{
    reveal(AppModel::shell_started);
    reveal(AppModel::startable_session);
    if let Some((session, process)) = app.startable_session() {
        let after = app.shell_started();
        assert(after.pending_effects.drop_last() =~= app.pending_effects);
        assert(after.pending_effects.last() == EffectModel::Start { session, process });
    }
}

proof fn lemma_shell_opened(app: AppModel)
    requires
        app.next_session_id < u64::MAX,
    ensures
        app.shell_opened().starts_no_session(app) || app.shell_opened().starts_one_session(app),
{
    reveal(AppModel::shell_opened);
    if let Some(workspace) = app.active_workspace() {
        if workspace.offers_shell() {
            let shown = app.with_active(workspace.with_shell_tab());
            let enlarged = shown.with_state(
                StateModel {
                    focused_pane: FocusedPane::Details,
                    resource_shell_presentation: ResourceShellPresentation::Enlarged,
                    ..shown.state
                },
            );
            lemma_shell_started(enlarged);
        }
    }
}

proof fn lemma_carried_out_starts_no_session(app: AppModel, command: Command)
    requires
        command != Command::OpenShell,
        command != Command::StartResourceShell,
    ensures
        app.carried_out(command).starts_no_session(app),
{
    reveal(AppModel::carried_out);
    match command {
        Command::ToggleHelp => {
            reveal(AppModel::help_toggled);
        },
        Command::MovePaneBoundaryLeft | Command::MovePaneBoundaryRight => {
            reveal(AppModel::boundary_resized);
        },
        Command::ReleasePaneBoundary => {
            reveal(AppModel::boundary_released);
        },
        Command::FocusResourcePanel(_) => {
            reveal(AppModel::panel_focused);
        },
        Command::FocusNextPane | Command::FocusPreviousPane => {
            reveal(AppModel::focus_cycled);
            reveal(AppModel::pane_focused);
            reveal(AppModel::panel_focused);
        },
        Command::SelectNextFast | Command::SelectPreviousFast => {
            reveal(AppModel::selection_moved);
        },
        Command::NextDetailView | Command::PreviousDetailView => {
            reveal(AppModel::tab_moved);
        },
        Command::ScrollDetailsDown | Command::ScrollDetailsUp => {
            reveal(AppModel::details_scrolled);
        },
        Command::CopyDetails => {
            reveal(AppModel::details_copied);
        },
        Command::BeginDetailsSelection { .. } => {
            reveal(AppModel::selection_begun);
        },
        Command::ExtendDetailsSelection { .. } => {
            reveal(AppModel::selection_extended);
        },
        Command::ExtendDetailsSelectionAtEdge { .. } => {
            reveal(AppModel::selection_extended_at_edge);
        },
        Command::ToggleResourceShellSize => {
            reveal(AppModel::shell_size_toggled);
        },
        Command::Cancel => {
            reveal(AppModel::cancelled);
        },
        Command::SelectResource { .. } => {
            reveal(AppModel::resource_selected);
        },
        Command::ActivateDetailView(_) => {
            reveal(AppModel::tab_activated);
        },
        Command::ScrollResourcePanelUp(_) | Command::ScrollResourcePanelDown(_) => {
            reveal(AppModel::panel_scrolled);
        },
        _ => {},
    }
}

/// A Command starts one session at most, and only the two that ask for a shell
/// start any.
pub proof fn law_a_command_starts_at_most_one_session(app: AppModel, command: Command)
    requires
        app.can_allocate(),
    ensures
        app.invoked(command).0.starts_no_session(app) || app.invoked(command).0.starts_one_session(
            app,
        ),
        command != Command::OpenShell && command != Command::StartResourceShell ==> app.invoked(
            command,
        ).0.starts_no_session(app),
{
    reveal(AppModel::dispatched);
    let left = app.selection_left(command);
    assert(left.starts_no_session(app)) by {
        reveal(AppModel::selection_left);
    }
    lemma_follow_up_starts_no_session(app.dispatched(command));
    match command {
        Command::Refresh => {
            lemma_activating_starts_no_session(left, 0);
        },
        Command::SelectNext | Command::NextWorkspace => {
            lemma_moving_starts_no_session(left, 1);
        },
        Command::SelectPrevious | Command::PreviousWorkspace => {
            lemma_moving_starts_no_session(left, -1);
        },
        Command::Confirm => {
            reveal(AppModel::confirmed);
            reveal(AppModel::command_dispatched);
        },
        Command::Resource(_) => {
            reveal(AppModel::resource_command);
            reveal(AppModel::command_dispatched);
        },
        Command::ActivateProviderWorkspace(index) => {
            lemma_activating_starts_no_session(
                left.with_focused_pane(FocusedPane::Providers),
                index,
            );
        },
        Command::OpenShell => {
            reveal(AppModel::carried_out);
            lemma_shell_opened(left);
        },
        Command::StartResourceShell => {
            reveal(AppModel::carried_out);
            lemma_shell_started(left);
        },
        _ => {
            lemma_carried_out_starts_no_session(left, command);
        },
    }
}

/// No event starts a session.
pub proof fn law_an_event_starts_no_session(app: AppModel, event: EventModel)
    ensures
        app.updated(event).0.starts_no_session(app),
{
    reveal(AppModel::applied);
    lemma_follow_up_starts_no_session(app.applied(event));
    match event {
        EventModel::ProviderDiscovered { .. } => {
            reveal(AppModel::provider_discovered);
            reveal(AppModel::refresh_started);
        },
        EventModel::RefreshTimerElapsed => {
            lemma_activating_starts_no_session(app, 0);
        },
        EventModel::RefreshCompleted { .. } => {
            reveal(AppModel::refresh_completed);
        },
        EventModel::ResourceShellStarted { .. } | EventModel::ResourceShellStartFailed { .. } => {
            reveal(AppModel::start_ended);
        },
        EventModel::ResourceShellExited { .. } => {
            reveal(AppModel::shell_exited);
            reveal(AppModel::refreshed);
            reveal(AppModel::refresh_started);
        },
        EventModel::ResourceCommandCompleted { .. } => {
            reveal(AppModel::command_completed);
            reveal(AppModel::refreshed);
            reveal(AppModel::refresh_started);
        },
        EventModel::ResourceDetailsCompleted { .. } => {
            reveal(AppModel::details_completed);
        },
    }
}

proof fn lemma_listed(app: AppModel, outcome: Outcome)
    requires
        outcome.0.starts_no_load(app),
        outcome.0.next_request_id < u64::MAX,
    ensures
        ({
            let after = AppModel::followed_up(outcome).0;
            &&& listed_providers(after).len() == outcome.0.state.providers.len()
            &&& listed_providers(after).take(app.state.providers.len() as int)
                == listed_providers(app)
            &&& outcome.0.state.providers.len() > 0 ==> listed_providers(after).last()
                == outcome.0.state.providers.last().provider
        }),
{
    reveal(AppModel::bar_updated);
    let middle = outcome.0;
    let synced = middle.details_synced().0;
    let after = AppModel::followed_up(outcome).0;
    lemma_synced(middle);
    assert(after.state.providers == synced.state.providers);
    assert forall|i: int| 0 <= i < middle.state.providers.len() implies (
    #[trigger] synced.state.providers[i]).provider == middle.state.providers[i].provider by {
        if middle.is_active(i) {
            assert(middle.active_workspace() == Some(middle.state.providers[i]));
            assert(synced.active_workspace() == Some(synced.state.providers[i]));
        }
    }
    let kept = listed_providers(after).take(app.state.providers.len() as int);
    assert forall|i: int| 0 <= i < app.state.providers.len() implies kept[i] == listed_providers(
        app,
    )[i] by {
        assert(middle.state.providers[i].awaits_no_more_than(app.state.providers[i]));
        assert(synced.state.providers[i].provider == middle.state.providers[i].provider);
    }
    assert(kept =~= listed_providers(app));
}

/// Providers are listed in the order of their discovery: a discovery puts its
/// Provider last, and nothing else adds, removes or reorders one.
pub proof fn law_providers_stay_in_discovery_order(
    app: AppModel,
    event: EventModel,
    command: Command,
)
    requires
        app.can_allocate(),
    ensures
        listed_providers(app.updated(event).0) == (match event {
            EventModel::ProviderDiscovered { provider, .. } => listed_providers(app).push(provider),
            _ => listed_providers(app),
        }),
        listed_providers(app.invoked(command).0) == listed_providers(app),
{
    lemma_applied(app, event);
    lemma_applying_allocates_at_most_one(app, event);
    lemma_listed(app, app.applied(event));
    lemma_dispatched(app, command);
    lemma_dispatching_allocates_at_most_one(app, command);
    lemma_listed(app, app.dispatched(command));
    let before = listed_providers(app);
    let after = listed_providers(app.updated(event).0);
    if let EventModel::ProviderDiscovered { provider, .. } = event {
        assert forall|i: int| 0 <= i < after.len() implies after[i] == before.push(provider)[i] by {
            if i < before.len() {
                assert(after.take(before.len() as int)[i] == after[i]);
            }
        }
        assert(after =~= before.push(provider));
    } else {
        assert(after.take(before.len() as int) =~= after);
    }
    let invoked = listed_providers(app.invoked(command).0);
    assert(invoked.take(before.len() as int) =~= invoked);
}

/// One thing that the host does with an application.
pub enum HostStep {
    Update(EventModel),
    Invoke(Command),
    TakeEffects,
    TakeDetailsCopy,
    TakeBoundarySave,
    ReportFailure(Seq<char>),
}

/// An application, and all the effects it has handed out.
#[verifier::ext_equal]
pub struct LifeModel {
    pub app: AppModel,
    pub handed_out: Seq<EffectModel>,
}

impl LifeModel {
    /// Whether identities are left for a step.
    pub open spec fn allows(self, step: HostStep) -> bool {
        step is Update || step is Invoke ==> self.app.can_allocate()
    }

    pub open spec fn stepped(self, step: HostStep) -> LifeModel {
        match step {
            HostStep::Update(event) => LifeModel { app: self.app.updated(event).0, ..self },
            HostStep::Invoke(command) => LifeModel { app: self.app.invoked(command).0, ..self },
            HostStep::TakeEffects => LifeModel {
                app: AppModel { pending_effects: Seq::empty(), ..self.app },
                handed_out: self.handed_out + self.app.pending_effects,
            },
            HostStep::TakeDetailsCopy => LifeModel {
                app: self.app.with_state(
                    StateModel { pending_details_copy: None, ..self.app.state },
                ),
                ..self
            },
            HostStep::TakeBoundarySave => LifeModel {
                app: AppModel { pending_boundary_save: None, ..self.app },
                ..self
            },
            HostStep::ReportFailure(text) => LifeModel {
                app: self.app.with_error(Some(text)),
                ..self
            },
        }
    }

    /// Every effect that was queued, handed out or not: each starts a session of
    /// its own, in the order of their identities.
    pub open spec fn starts_fit(self) -> bool {
        let effects = self.handed_out + self.app.pending_effects;
        &&& forall|i: int|
            0 <= i < effects.len() ==> started_session(#[trigger] effects[i])
                < self.app.next_session_id
        &&& forall|i: int, j: int|
            0 <= i < j < effects.len() ==> started_session(#[trigger] effects[i])
                < started_session(#[trigger] effects[j])
    }
}

/// The life of a new application after some steps.
pub open spec fn life(
    registry: Seq<CommandModel>,
    boundary: BoundaryModel,
    steps: Seq<HostStep>,
) -> LifeModel
    decreases steps.len(),
{
    if steps.len() == 0 {
        LifeModel { app: AppModel::initial(registry, boundary), handed_out: Seq::empty() }
    } else {
        life(registry, boundary, steps.drop_last()).stepped(steps.last())
    }
}

/// Whether identities were left for every one of some steps.
pub open spec fn livable(
    registry: Seq<CommandModel>,
    boundary: BoundaryModel,
    steps: Seq<HostStep>,
) -> bool
    decreases steps.len(),
{
    steps.len() > 0 ==> {
        &&& livable(registry, boundary, steps.drop_last())
        &&& life(registry, boundary, steps.drop_last()).allows(steps.last())
    }
}

/// The Providers that some steps discovered, in order.
pub open spec fn discovered(steps: Seq<HostStep>) -> Seq<ProviderModel>
    decreases steps.len(),
{
    if steps.len() == 0 {
        Seq::empty()
    } else {
        match steps.last() {
            HostStep::Update(EventModel::ProviderDiscovered { provider, .. }) => discovered(
                steps.drop_last(),
            ).push(provider),
            _ => discovered(steps.drop_last()),
        }
    }
}

proof fn lemma_step_keeps_starts_fit(before: LifeModel, step: HostStep)
    requires
        before.starts_fit(),
        before.allows(step),
    ensures
        before.stepped(step).starts_fit(),
{
    let after = before.stepped(step);
    let effects = before.handed_out + before.app.pending_effects;
    let queued = after.handed_out + after.app.pending_effects;
    match step {
        HostStep::Update(event) => {
            law_an_event_starts_no_session(before.app, event);
        },
        HostStep::Invoke(command) => {
            law_a_command_starts_at_most_one_session(before.app, command);
            if after.app.starts_one_session(before.app) {
                let last = after.app.pending_effects.last();
                assert(after.app.pending_effects =~= before.app.pending_effects.push(last));
                assert(queued =~= effects.push(last));
            }
        },
        HostStep::TakeEffects => {
            assert(queued =~= effects);
        },
        _ => {},
    }
}

/// Over the life of an application no two effects start a session of the same
/// identity. Every effect queued is handed out once, in the order it was queued.
pub proof fn law_no_session_identity_is_started_twice(
    registry: Seq<CommandModel>,
    boundary: BoundaryModel,
    steps: Seq<HostStep>,
    i: int,
    j: int,
)
    requires
        livable(registry, boundary, steps),
    ensures
        life(registry, boundary, steps).starts_fit(),
        0 <= i < j < life(registry, boundary, steps).handed_out.len() ==> started_session(
            life(registry, boundary, steps).handed_out[i],
        ) != started_session(life(registry, boundary, steps).handed_out[j]),
    decreases steps.len(),
{
    let now = life(registry, boundary, steps);
    if steps.len() > 0 {
        law_no_session_identity_is_started_twice(registry, boundary, steps.drop_last(), i, j);
        lemma_step_keeps_starts_fit(life(registry, boundary, steps.drop_last()), steps.last());
    }
    let effects = now.handed_out + now.app.pending_effects;
    if 0 <= i < j < now.handed_out.len() {
        assert(effects[i] == now.handed_out[i]);
        assert(effects[j] == now.handed_out[j]);
    }
}

/// Taking the effects leaves none behind: they come in the order they were
/// queued, and a second taking finds nothing.
pub proof fn law_effects_are_taken_once(now: LifeModel)
    ensures
        now.stepped(HostStep::TakeEffects).handed_out == now.handed_out + now.app.pending_effects,
        now.stepped(HostStep::TakeEffects).stepped(HostStep::TakeEffects) == now.stepped(
            HostStep::TakeEffects,
        ),
{
    let taken = now.stepped(HostStep::TakeEffects);
    assert(taken.stepped(HostStep::TakeEffects).handed_out =~= taken.handed_out);
}

/// Whatever an application went through, it lists every Provider that was
/// discovered, in the order of discovery; one of them is active exactly when
/// there are any.
pub proof fn law_the_active_provider_is_a_discovered_one(
    registry: Seq<CommandModel>,
    boundary: BoundaryModel,
    steps: Seq<HostStep>,
)
    requires
        livable(registry, boundary, steps),
        boundary.in_range(),
    ensures
        ({
            let app = life(registry, boundary, steps).app;
            &&& app.well_formed()
            &&& listed_providers(app) == discovered(steps)
            &&& app.state.active_provider is None <==> app.state.providers.len() == 0
            &&& app.state.active_provider matches Some(active) ==> active
                < app.state.providers.len()
        }),
    decreases steps.len(),
{
    let now = life(registry, boundary, steps).app;
    if steps.len() == 0 {
        law_a_new_application_is_well_formed(registry, boundary);
        assert(listed_providers(now) =~= Seq::empty());
    } else {
        law_the_active_provider_is_a_discovered_one(registry, boundary, steps.drop_last());
        let before = life(registry, boundary, steps.drop_last()).app;
        match steps.last() {
            HostStep::Update(event) => {
                law_events_keep_the_application_well_formed(before, event);
                law_providers_stay_in_discovery_order(before, event, Command::Quit);
            },
            HostStep::Invoke(command) => {
                law_commands_keep_the_application_well_formed(before, command);
                law_providers_stay_in_discovery_order(
                    before,
                    EventModel::RefreshTimerElapsed,
                    command,
                );
            },
            _ => {
                lemma_untouched_keeps_well_formed(before, now);
            },
        }
    }
}

} // verus!
