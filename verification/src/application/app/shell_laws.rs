//! What becomes of Resource Shell Sessions.

use vstd::prelude::*;

use super::command_laws::{
    lemma_followed, lemma_left, lemma_replaced, same_choices, same_surroundings, unselected,
};
use super::effect_laws::{is_refreshing, lemma_surroundings, lemma_works_on, resource_of, works_on};
use super::model::{
    has_live_session, pending_providers, session_ids, sessions_without, AppModel, EventModel,
};
use super::state::{session_for, FocusedPane, StateModel};
use crate::application::command::Command;
use crate::application::provider::PanelModel;
use crate::application::shell::{
    EffectModel, LifecycleModel, ProcessModel, ResourceShellPresentation, ResourceShellSessionId,
    SessionModel,
};
use crate::application::workspace::model::{TabModel, WorkspaceModel};
use crate::domain::TargetModel;
use crate::text::lemma_first_position_found;

verus! {

/// The sessions that do not belong to one Resource of one Provider.
pub open spec fn of_others(
    sessions: Seq<SessionModel>,
    provider_id: Seq<char>,
    target: TargetModel,
) -> Seq<SessionModel> {
    sessions.filter(
        |session: SessionModel| session.provider_id != provider_id || session.target != target,
    )
}

proof fn lemma_of_others(sessions: Seq<SessionModel>, provider_id: Seq<char>, target: TargetModel)
    ensures
        sessions_without(sessions, provider_id, target) == of_others(sessions, provider_id, target),
    decreases sessions.len(),
{
    reveal(Seq::filter);
    if sessions.len() > 0 {
        lemma_of_others(sessions.drop_last(), provider_id, target);
    } else {
        assert(sessions =~= Seq::<SessionModel>::empty());
    }
}

/// Whether a Resource of a Provider has a session that starts or runs.
pub open spec fn is_served(
    sessions: Seq<SessionModel>,
    provider_id: Seq<char>,
    target: TargetModel,
) -> bool {
    exists|i: int|
        0 <= i < sessions.len() && (#[trigger] sessions[i]).provider_id == provider_id
            && sessions[i].target == target && (sessions[i].lifecycle is Starting
            || sessions[i].lifecycle is Running)
}

proof fn lemma_served(sessions: Seq<SessionModel>, provider_id: Seq<char>, target: TargetModel)
    ensures
        has_live_session(sessions, provider_id, target) == is_served(
            sessions,
            provider_id,
            target,
        ),
{
    if has_live_session(sessions, provider_id, target) {
        let i = choose|i: int|
            0 <= i < sessions.len() && (#[trigger] sessions[i]).is_for(provider_id, target)
                && sessions[i].is_live();
        assert(sessions[i].provider_id == provider_id);
    }
    if is_served(sessions, provider_id, target) {
        let i = choose|i: int|
            0 <= i < sessions.len() && (#[trigger] sessions[i]).provider_id == provider_id
                && sessions[i].target == target && (sessions[i].lifecycle is Starting
                || sessions[i].lifecycle is Running);
        assert(sessions[i].is_for(provider_id, target));
    }
}

/// The session that starting the shell of the selected Resource begins.
pub open spec fn new_session(
    app: AppModel,
    workspace: WorkspaceModel,
    panels: Seq<PanelModel>,
    p: int,
    s: int,
) -> SessionModel {
    SessionModel {
        id: ResourceShellSessionId(app.next_session_id),
        provider_id: workspace.provider.id,
        provider_name: workspace.provider.name,
        target: resource_of(panels, p, s),
        resource_name: panels[p].resources[s].name,
        lifecycle: LifecycleModel::Starting,
    }
}

/// Whether an application with the state given has a session started besides:
/// the host is asked to start its process, and it stands in place of every
/// earlier session of the Resource.
pub open spec fn is_starting(
    after: AppModel,
    before: AppModel,
    state: StateModel,
    session: SessionModel,
    process: ProcessModel,
) -> bool {
    same_surroundings(
        after,
        AppModel {
            state: StateModel {
                resource_shell_sessions: of_others(
                    before.state.resource_shell_sessions,
                    session.provider_id,
                    session.target,
                ).push(session),
                ..state
            },
            next_session_id: (before.next_session_id + 1) as u64,
            pending_effects: before.pending_effects.push(EffectModel::Start { session, process }),
            ..before
        },
    )
}

proof fn lemma_started(
    app: AppModel,
    workspace: WorkspaceModel,
    panels: Seq<PanelModel>,
    p: int,
    s: int,
    process: ProcessModel,
)
    requires
        works_on(app, workspace, panels, p, s),
        panels[p].resources[s].shell == Some(process),
        workspace.selected_tab is Shell,
    ensures
        ({
            let started = app.shell_started();
            let served = is_served(
                app.state.resource_shell_sessions,
                workspace.provider.id,
                resource_of(panels, p, s),
            );
            &&& served ==> started == app
            &&& !served ==> is_starting(
                started,
                app,
                app.state,
                new_session(app, workspace, panels, p, s),
                process,
            )
            &&& started.state.providers == app.state.providers
            &&& started.state.active_provider == app.state.active_provider
        }),
{
    lemma_works_on(app, workspace, panels, p, s);
    let target = resource_of(panels, p, s);
    lemma_served(app.state.resource_shell_sessions, workspace.provider.id, target);
    lemma_of_others(app.state.resource_shell_sessions, workspace.provider.id, target);
    reveal(AppModel::shell_started);
    reveal(AppModel::startable_session);
}

/// Opening the shell of the selected Resource shows its Shell tab over the
/// whole Workspace, with the focus on the Details, and starts a session unless
/// one starts or runs already. A Resource without a shell is left alone.
pub proof fn law_opening_a_shell(
    app: AppModel,
    workspace: WorkspaceModel,
    panels: Seq<PanelModel>,
    p: int,
    s: int,
)
    requires
        works_on(app, workspace, panels, p, s),
    ensures
        ({
            let after = app.invoked(Command::OpenShell).0;
            let opened = StateModel {
                focused_pane: FocusedPane::Details,
                resource_shell_presentation: ResourceShellPresentation::Enlarged,
                ..app.state
            };
            match panels[p].resources[s].shell {
                None => same_surroundings(after, app),
                Some(process) => {
                    &&& after.active_workspace() matches Some(shown) && same_choices(
                        shown,
                        WorkspaceModel { selected_tab: TabModel::Shell, ..workspace },
                    )
                    &&& if is_served(
                        app.state.resource_shell_sessions,
                        workspace.provider.id,
                        resource_of(panels, p, s),
                    ) {
                        same_surroundings(after, AppModel { state: opened, ..app })
                    } else {
                        is_starting(
                            after,
                            app,
                            opened,
                            new_session(app, workspace, panels, p, s),
                            process,
                        )
                    }
                },
            }
        }),
{
    let command = Command::OpenShell;
    lemma_left(app, workspace, command);
    let left = app.selection_left(command);
    let quiet = unselected(workspace, command);
    lemma_works_on(left, quiet, panels, p, s);
    reveal(AppModel::dispatched);
    reveal(AppModel::carried_out);
    reveal(AppModel::shell_opened);
    match panels[p].resources[s].shell {
        None => {
            lemma_followed(app.dispatched(command), quiet);
        },
        Some(process) => {
            let tabbed = quiet.with_shell_tab();
            assert(same_choices(tabbed, WorkspaceModel { selected_tab: TabModel::Shell, ..quiet }));
            lemma_replaced(left, quiet, tabbed);
            let shown = left.with_active(tabbed);
            let opened = shown.with_state(
                StateModel {
                    focused_pane: FocusedPane::Details,
                    resource_shell_presentation: ResourceShellPresentation::Enlarged,
                    ..shown.state
                },
            );
            lemma_started(opened, tabbed, panels, p, s, process);
            lemma_followed(app.dispatched(command), tabbed);
        },
    }
}

/// On the Shell tab a session is started again where none starts or runs, and
/// its size stays as it is.
pub proof fn law_starting_a_shell_again(
    app: AppModel,
    workspace: WorkspaceModel,
    panels: Seq<PanelModel>,
    p: int,
    s: int,
    process: ProcessModel,
)
    requires
        works_on(app, workspace, panels, p, s),
        panels[p].resources[s].shell == Some(process),
        workspace.selected_tab is Shell,
    ensures
        ({
            let after = app.invoked(Command::StartResourceShell).0;
            if is_served(
                app.state.resource_shell_sessions,
                workspace.provider.id,
                resource_of(panels, p, s),
            ) {
                same_surroundings(after, app)
            } else {
                is_starting(
                    after,
                    app,
                    app.state,
                    new_session(app, workspace, panels, p, s),
                    process,
                )
            }
        }),
{
    let command = Command::StartResourceShell;
    lemma_left(app, workspace, command);
    let left = app.selection_left(command);
    let quiet = unselected(workspace, command);
    lemma_started(left, quiet, panels, p, s, process);
    reveal(AppModel::dispatched);
    reveal(AppModel::carried_out);
    lemma_surroundings(app.dispatched(command));
}

/// Whether a session of an identity stands at a position, the first of it.
pub open spec fn session_at(
    app: AppModel,
    i: int,
    session: SessionModel,
) -> bool {
    &&& 0 <= i < app.state.resource_shell_sessions.len()
    &&& app.state.resource_shell_sessions[i] == session
    &&& forall|j: int|
        0 <= j < i ==> (#[trigger] app.state.resource_shell_sessions[j]).id != session.id
}

/// An application with one session in another stage of its life.
pub open spec fn with_stage(app: AppModel, i: int, lifecycle: LifecycleModel) -> AppModel {
    AppModel {
        state: StateModel {
            resource_shell_sessions: app.state.resource_shell_sessions.update(
                i,
                SessionModel { lifecycle, ..app.state.resource_shell_sessions[i] },
            ),
            ..app.state
        },
        ..app
    }
}

proof fn lemma_session_found(app: AppModel, i: int, session: SessionModel)
    requires
        session_at(app, i, session),
    ensures
        crate::text::first_position(
            session_ids(app.state.resource_shell_sessions),
            session.id,
        ) == Some(i),
{
    let ids = session_ids(app.state.resource_shell_sessions);
    assert forall|j: int| 0 <= j < i implies ids[j] != session.id by {
        assert(app.state.resource_shell_sessions[j].id != session.id);
    }
    lemma_first_position_found(ids, session.id, i);
}

/// A starting session runs once it has started, and keeps the reason where it
/// has not. One that is past its start is not started again.
pub proof fn law_a_start_ends_one_way_or_the_other(
    app: AppModel,
    i: int,
    session: SessionModel,
    reason: Seq<char>,
)
    requires
        session_at(app, i, session),
    ensures
        ({
            let started = app.updated(
                EventModel::ResourceShellStarted { session_id: session.id },
            ).0;
            let failed = app.updated(
                EventModel::ResourceShellStartFailed { session_id: session.id, reason },
            ).0;
            if session.lifecycle is Starting {
                &&& same_surroundings(started, with_stage(app, i, LifecycleModel::Running))
                &&& same_surroundings(
                    failed,
                    with_stage(app, i, LifecycleModel::StartFailed(reason)),
                )
            } else {
                &&& same_surroundings(started, app)
                &&& same_surroundings(failed, app)
            }
        }),
{
    lemma_session_found(app, i, session);
    reveal(AppModel::applied);
    reveal(AppModel::start_ended);
    lemma_surroundings(
        app.applied(EventModel::ResourceShellStarted { session_id: session.id }),
    );
    lemma_surroundings(
        app.applied(EventModel::ResourceShellStartFailed { session_id: session.id, reason }),
    );
}

/// A session that ended is shown as ended, and its Workspace is refreshed while
/// it is the active one.
pub proof fn law_an_ended_session_refreshes(
    app: AppModel,
    i: int,
    session: SessionModel,
    workspace: WorkspaceModel,
)
    requires
        session_at(app, i, session),
        app.active_workspace() == Some(workspace),
        !pending_providers(app.pending_refreshes).contains(workspace.provider.id),
    ensures
        ({
            let (after, requests) = app.updated(
                EventModel::ResourceShellExited { session_id: session.id },
            );
            let ended = with_stage(app, i, LifecycleModel::Exited);
            if session.provider_id == workspace.provider.id {
                is_refreshing(after, requests, ended, workspace.provider.id)
            } else {
                same_surroundings(after, ended)
            }
        }),
{
    lemma_session_found(app, i, session);
    reveal(AppModel::applied);
    reveal(AppModel::shell_exited);
    reveal(AppModel::refreshed);
    reveal(AppModel::refresh_started);
    lemma_surroundings(
        app.applied(EventModel::ResourceShellExited { session_id: session.id }),
    );
}

/// Whether a session is the first of a Resource of a Provider.
pub open spec fn first_session_of(
    sessions: Seq<SessionModel>,
    i: int,
    provider_id: Seq<char>,
    target: TargetModel,
) -> bool {
    &&& 0 <= i < sessions.len()
    &&& sessions[i].provider_id == provider_id
    &&& sessions[i].target == target
    &&& forall|j: int|
        0 <= j < i ==> (#[trigger] sessions[j]).provider_id != provider_id || sessions[j].target
            != target
}

proof fn lemma_session_for(
    sessions: Seq<SessionModel>,
    i: int,
    provider_id: Seq<char>,
    target: TargetModel,
)
    requires
        first_session_of(sessions, i, provider_id, target),
    ensures
        session_for(sessions, provider_id, target) == Some(sessions[i]),
    decreases i,
{
    if i > 0 {
        assert(!sessions[0].is_for(provider_id, target));
        let rest = sessions.drop_first();
        assert(rest[i - 1] == sessions[i]);
        assert forall|j: int| 0 <= j < i - 1 implies (#[trigger] rest[j]).provider_id != provider_id
            || rest[j].target != target by {
            assert(rest[j] == sessions[j + 1]);
        }
        lemma_session_for(rest, i - 1, provider_id, target);
    }
}

proof fn lemma_no_session_for(
    sessions: Seq<SessionModel>,
    provider_id: Seq<char>,
    target: TargetModel,
)
    requires
        forall|j: int|
            0 <= j < sessions.len() ==> (#[trigger] sessions[j]).provider_id != provider_id
                || sessions[j].target != target,
    ensures
        session_for(sessions, provider_id, target) is None,
    decreases sessions.len(),
{
    if sessions.len() > 0 {
        assert(!sessions[0].is_for(provider_id, target));
        let rest = sessions.drop_first();
        assert forall|j: int| 0 <= j < rest.len() implies (#[trigger] rest[j]).provider_id
            != provider_id || rest[j].target != target by {
            assert(rest[j] == sessions[j + 1]);
        }
        lemma_no_session_for(rest, provider_id, target);
    }
}

/// On the Shell tab of a Resource with a shell its own session is on the
/// screen, and on no other tab and for no other Resource is one. It takes keys
/// while it runs, and it is over the whole Workspace while it is enlarged.
pub proof fn law_the_selected_resource_shows_its_session(
    app: AppModel,
    workspace: WorkspaceModel,
    panels: Seq<PanelModel>,
    p: int,
    s: int,
    i: int,
)
    requires
        works_on(app, workspace, panels, p, s),
    ensures
        ({
            let sessions = app.state.resource_shell_sessions;
            let id = workspace.provider.id;
            let target = resource_of(panels, p, s);
            let shows = workspace.selected_tab is Shell && panels[p].resources[s].shell is Some;
            &&& !shows ==> app.state.visible_session() is None
            &&& shows && first_session_of(sessions, i, id, target) ==> {
                &&& app.state.visible_session() == Some(sessions[i])
                &&& app.state.visible_running_session() == (if sessions[i].lifecycle is Running {
                    Some(sessions[i])
                } else {
                    None
                })
                &&& app.state.enlarged_session() == (if app.state.resource_shell_presentation
                    == ResourceShellPresentation::Enlarged {
                    Some(sessions[i])
                } else {
                    None
                })
            }
            &&& (forall|j: int|
                0 <= j < sessions.len() ==> (#[trigger] sessions[j]).provider_id != id
                    || sessions[j].target != target) ==> app.state.visible_session() is None
        }),
{
    lemma_works_on(app, workspace, panels, p, s);
    let sessions = app.state.resource_shell_sessions;
    let id = workspace.provider.id;
    let target = resource_of(panels, p, s);
    if first_session_of(sessions, i, id, target) {
        lemma_session_for(sessions, i, id, target);
    }
    if forall|j: int|
        0 <= j < sessions.len() ==> (#[trigger] sessions[j]).provider_id != id || sessions[j].target
            != target {
        lemma_no_session_for(sessions, id, target);
    }
}

} // verus!
