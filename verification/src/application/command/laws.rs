//! What holds of every registry that Tuivir accepts.

use vstd::prelude::*;

use super::defaults::{
    application_commands, builtin_commands, detail_commands, details_scopes, help_scopes,
    modal_commands, modal_scopes, navigation_commands, panel_focus_commands, resource_commands,
    resource_scopes, selectable_scopes, workspace_scopes,
};
use super::{
    claims, command_ids, configuration_problems, configured, conflicts_among, conflicts_in,
    conflicts_over_keys, conflicts_over_scopes, emergency_claims, emergency_quit, first_claimant,
    offered, quittable, resolved, spelled_keys, with_overrides, Command, CommandModel,
    CommandScope,
};
use crate::application::key::Key;
use crate::application::keybinding::KeybindingProblem;
use crate::text::{lemma_first_position, lemma_first_position_found};

verus! {

spec fn letter(id: Seq<char>, at: int) -> int {
    if at < id.len() {
        id[at] as int
    } else {
        0
    }
}

/// Enough of an identifier to tell the compiled ones apart.
spec fn mark(id: Seq<char>) -> int {
    id.len() * 1_000_000_000 + letter(id, 4) * 1_000_000 + letter(id, 11) * 1_000 + letter(id, 16)
}

/// Where the compiled identifier with a mark is registered.
spec fn place(mark: int) -> int {
    if mark == 8113000000 {
        0
    } else if mark == 8104000000 {
        1
    } else if mark == 11114000000 {
        2
    } else if mark == 15115100000 {
        3
    } else if mark == 15115114000 {
        4
    } else if mark == 17115114050 {
        5
    } else if mark == 17115114051 {
        6
    } else if mark == 17115114052 {
        7
    } else if mark == 17115114053 {
        8
    } else if mark == 17115114054 {
        9
    } else if mark == 17115114055 {
        10
    } else if mark == 17115114056 {
        11
    } else if mark == 17115114057 {
        12
    } else if mark == 13115108000 {
        13
    } else if mark == 10115000000 {
        14
    } else if mark == 14115111000 {
        15
    } else if mark == 14099101000 {
        16
    } else if mark == 18099114117 {
        17
    } else if mark == 19099101097 {
        18
    } else if mark == 23099114117 {
        19
    } else if mark == 14115101000 {
        20
    } else if mark == 18115114117 {
        21
    } else if mark == 16105095000 {
        22
    } else if mark == 20105095105 {
        23
    } else if mark == 18105108119 {
        24
    } else if mark == 16105108000 {
        25
    } else if mark == 12105121000 {
        26
    } else if mark == 20117100108 {
        27
    } else if mark == 21117100114 {
        28
    } else if mark == 13108114000 {
        29
    } else if mark == 12108108000 {
        30
    } else if mark == 14117097000 {
        31
    } else if mark == 13117111000 {
        32
    } else if mark == 16117115000 {
        33
    } else if mark == 15117115000 {
        34
    } else if mark == 14117101000 {
        35
    } else if mark == 15117108000 {
        36
    } else {
        -1
    }
}

proof fn lemma_application_commands_marked()
    ensures
        application_commands().len() == 4,
        forall|i: int| 0 <= i < 4 ==> place(mark(#[trigger] application_commands()[i].id)) == i + 0,
{
    reveal_strlit("app_quit");
    reveal_strlit("app_help");
    reveal_strlit("app_refresh");
    reveal_strlit("focus_providers");
    assert(mark("app_quit"@) == 8113000000);
    assert(application_commands()[0].id == "app_quit"@);
    assert(mark("app_help"@) == 8104000000);
    assert(application_commands()[1].id == "app_help"@);
    assert(mark("app_refresh"@) == 11114000000);
    assert(application_commands()[2].id == "app_refresh"@);
    assert(mark("focus_providers"@) == 15115100000);
    assert(application_commands()[3].id == "focus_providers"@);
}

proof fn lemma_panel_focus_commands_marked()
    ensures
        panel_focus_commands().len() == 9,
        forall|i: int| 0 <= i < 9 ==> place(mark(#[trigger] panel_focus_commands()[i].id)) == i + 4,
{
    reveal_strlit("focus_resources");
    reveal_strlit("focus_resources_2");
    reveal_strlit("focus_resources_3");
    reveal_strlit("focus_resources_4");
    reveal_strlit("focus_resources_5");
    reveal_strlit("focus_resources_6");
    reveal_strlit("focus_resources_7");
    reveal_strlit("focus_resources_8");
    reveal_strlit("focus_resources_9");
    assert(mark("focus_resources"@) == 15115114000);
    assert(panel_focus_commands()[0].id == "focus_resources"@);
    assert(mark("focus_resources_2"@) == 17115114050);
    assert(panel_focus_commands()[1].id == "focus_resources_2"@);
    assert(mark("focus_resources_3"@) == 17115114051);
    assert(panel_focus_commands()[2].id == "focus_resources_3"@);
    assert(mark("focus_resources_4"@) == 17115114052);
    assert(panel_focus_commands()[3].id == "focus_resources_4"@);
    assert(mark("focus_resources_5"@) == 17115114053);
    assert(panel_focus_commands()[4].id == "focus_resources_5"@);
    assert(mark("focus_resources_6"@) == 17115114054);
    assert(panel_focus_commands()[5].id == "focus_resources_6"@);
    assert(mark("focus_resources_7"@) == 17115114055);
    assert(panel_focus_commands()[6].id == "focus_resources_7"@);
    assert(mark("focus_resources_8"@) == 17115114056);
    assert(panel_focus_commands()[7].id == "focus_resources_8"@);
    assert(mark("focus_resources_9"@) == 17115114057);
    assert(panel_focus_commands()[8].id == "focus_resources_9"@);
}

proof fn lemma_navigation_commands_marked()
    ensures
        navigation_commands().len() == 9,
        forall|i: int| 0 <= i < 9 ==> place(mark(#[trigger] navigation_commands()[i].id)) == i + 13,
{
    reveal_strlit("focus_details");
    reveal_strlit("focus_next");
    reveal_strlit("focus_previous");
    reveal_strlit("selection_next");
    reveal_strlit("selection_previous");
    reveal_strlit("selection_next_fast");
    reveal_strlit("selection_previous_fast");
    reveal_strlit("workspace_next");
    reveal_strlit("workspace_previous");
    assert(mark("focus_details"@) == 13115108000);
    assert(navigation_commands()[0].id == "focus_details"@);
    assert(mark("focus_next"@) == 10115000000);
    assert(navigation_commands()[1].id == "focus_next"@);
    assert(mark("focus_previous"@) == 14115111000);
    assert(navigation_commands()[2].id == "focus_previous"@);
    assert(mark("selection_next"@) == 14099101000);
    assert(navigation_commands()[3].id == "selection_next"@);
    assert(mark("selection_previous"@) == 18099114117);
    assert(navigation_commands()[4].id == "selection_previous"@);
    assert(mark("selection_next_fast"@) == 19099101097);
    assert(navigation_commands()[5].id == "selection_next_fast"@);
    assert(mark("selection_previous_fast"@) == 23099114117);
    assert(navigation_commands()[6].id == "selection_previous_fast"@);
    assert(mark("workspace_next"@) == 14115101000);
    assert(navigation_commands()[7].id == "workspace_next"@);
    assert(mark("workspace_previous"@) == 18115114117);
    assert(navigation_commands()[8].id == "workspace_previous"@);
}

proof fn lemma_detail_commands_marked()
    ensures
        detail_commands().len() == 7,
        forall|i: int| 0 <= i < 7 ==> place(mark(#[trigger] detail_commands()[i].id)) == i + 22,
{
    reveal_strlit("detail_view_next");
    reveal_strlit("detail_view_previous");
    reveal_strlit("detail_scroll_down");
    reveal_strlit("detail_scroll_up");
    reveal_strlit("details_copy");
    reveal_strlit("layout_boundary_left");
    reveal_strlit("layout_boundary_right");
    assert(mark("detail_view_next"@) == 16105095000);
    assert(detail_commands()[0].id == "detail_view_next"@);
    assert(mark("detail_view_previous"@) == 20105095105);
    assert(detail_commands()[1].id == "detail_view_previous"@);
    assert(mark("detail_scroll_down"@) == 18105108119);
    assert(detail_commands()[2].id == "detail_scroll_down"@);
    assert(mark("detail_scroll_up"@) == 16105108000);
    assert(detail_commands()[3].id == "detail_scroll_up"@);
    assert(mark("details_copy"@) == 12105121000);
    assert(detail_commands()[4].id == "details_copy"@);
    assert(mark("layout_boundary_left"@) == 20117100108);
    assert(detail_commands()[5].id == "layout_boundary_left"@);
    assert(mark("layout_boundary_right"@) == 21117100114);
    assert(detail_commands()[6].id == "layout_boundary_right"@);
}

proof fn lemma_modal_commands_marked()
    ensures
        modal_commands().len() == 2,
        forall|i: int| 0 <= i < 2 ==> place(mark(#[trigger] modal_commands()[i].id)) == i + 29,
{
    reveal_strlit("modal_confirm");
    reveal_strlit("modal_cancel");
    assert(mark("modal_confirm"@) == 13108114000);
    assert(modal_commands()[0].id == "modal_confirm"@);
    assert(mark("modal_cancel"@) == 12108108000);
    assert(modal_commands()[1].id == "modal_cancel"@);
}

proof fn lemma_resource_commands_marked()
    ensures
        resource_commands().len() == 6,
        forall|i: int| 0 <= i < 6 ==> place(mark(#[trigger] resource_commands()[i].id)) == i + 31,
{
    reveal_strlit("resource_start");
    reveal_strlit("resource_stop");
    reveal_strlit("resource_restart");
    reveal_strlit("resource_resume");
    reveal_strlit("resource_shell");
    reveal_strlit("resource_delete");
    assert(mark("resource_start"@) == 14117097000);
    assert(resource_commands()[0].id == "resource_start"@);
    assert(mark("resource_stop"@) == 13117111000);
    assert(resource_commands()[1].id == "resource_stop"@);
    assert(mark("resource_restart"@) == 16117115000);
    assert(resource_commands()[2].id == "resource_restart"@);
    assert(mark("resource_resume"@) == 15117115000);
    assert(resource_commands()[3].id == "resource_resume"@);
    assert(mark("resource_shell"@) == 14117101000);
    assert(resource_commands()[4].id == "resource_shell"@);
    assert(mark("resource_delete"@) == 15117108000);
    assert(resource_commands()[5].id == "resource_delete"@);
}

/// Where a compiled Command is registered follows from its identifier.
proof fn lemma_builtin_marked(i: int)
    requires
        0 <= i < builtin_commands().len(),
    ensures
        place(mark(builtin_commands()[i].id)) == i,
{
    lemma_application_commands_marked();
    lemma_panel_focus_commands_marked();
    lemma_navigation_commands_marked();
    lemma_detail_commands_marked();
    lemma_modal_commands_marked();
    lemma_resource_commands_marked();
    if i < 4 {
        assert(builtin_commands()[i] == application_commands()[i - 0]);
    } else if i < 13 {
        assert(builtin_commands()[i] == panel_focus_commands()[i - 4]);
    } else if i < 22 {
        assert(builtin_commands()[i] == navigation_commands()[i - 13]);
    } else if i < 29 {
        assert(builtin_commands()[i] == detail_commands()[i - 22]);
    } else if i < 31 {
        assert(builtin_commands()[i] == modal_commands()[i - 29]);
    } else {
        assert(builtin_commands()[i] == resource_commands()[i - 31]);
    }
}

/// The compiled Commands have identifiers of their own.
pub proof fn law_builtin_identifiers_are_distinct()
    ensures
        command_ids(builtin_commands()).no_duplicates(),
{
    assert forall|i: int, j: int|
        0 <= i < builtin_commands().len() && 0 <= j < builtin_commands().len() && i != j implies
    command_ids(builtin_commands())[i] != command_ids(builtin_commands())[j] by {
        lemma_builtin_marked(i);
        lemma_builtin_marked(j);
    }
}

/// Overrides change keys and nothing else.
proof fn lemma_overrides_keep_the_rest(
    registry: Seq<CommandModel>,
    overrides: Seq<(Seq<char>, Seq<Seq<char>>)>,
)
    ensures
        with_overrides(registry, overrides).len() == registry.len(),
        forall|i: int|
            0 <= i < registry.len() ==> (#[trigger] with_overrides(registry, overrides)[i]) == (
            CommandModel { keys: with_overrides(registry, overrides)[i].keys, ..registry[i] }),
        command_ids(with_overrides(registry, overrides)) == command_ids(registry),
    decreases overrides.len(),
{
    if overrides.len() > 0 {
        let earlier = with_overrides(registry, overrides.drop_last());
        lemma_overrides_keep_the_rest(registry, overrides.drop_last());
        lemma_first_position(command_ids(earlier), overrides.last().0);
        let after = with_overrides(registry, overrides);
        assert forall|i: int| 0 <= i < registry.len() implies (#[trigger] after[i]) == (
        CommandModel { keys: after[i].keys, ..registry[i] }) by {
            assert(earlier[i] == (CommandModel { keys: earlier[i].keys, ..registry[i] }));
        }
        assert(command_ids(after) =~= command_ids(registry)) by {
            assert forall|i: int| 0 <= i < registry.len() implies command_ids(after)[i]
                == command_ids(registry)[i] by {
                assert(after[i] == (CommandModel { keys: after[i].keys, ..registry[i] }));
            }
        }
    } else {
        assert(registry =~= with_overrides(registry, overrides));
    }
}

/// Omitting a Command preserves its defaults.
pub proof fn law_unmentioned_command_keeps_its_keys(
    overrides: Seq<(Seq<char>, Seq<Seq<char>>)>,
    i: int,
)
    requires
        0 <= i < builtin_commands().len(),
        forall|j: int|
            0 <= j < overrides.len() ==> (#[trigger] overrides[j]).0 != builtin_commands()[i].id,
    ensures
        with_overrides(builtin_commands(), overrides)[i] == builtin_commands()[i],
    decreases overrides.len(),
{
    if overrides.len() > 0 {
        let shorter = overrides.drop_last();
        assert forall|j: int| 0 <= j < shorter.len() implies (#[trigger] shorter[j]).0
            != builtin_commands()[i].id by {
            assert(shorter[j] == overrides[j]);
        }
        law_unmentioned_command_keeps_its_keys(shorter, i);
        lemma_overrides_keep_the_rest(builtin_commands(), shorter);
        let earlier = with_overrides(builtin_commands(), shorter);
        lemma_first_position(command_ids(earlier), overrides.last().0);
        assert(overrides[overrides.len() - 1].0 != builtin_commands()[i].id);
        assert(command_ids(earlier)[i] == command_ids(builtin_commands())[i]);
    }
}

/// A configured list replaces the Command's complete default list: the keys
/// that the last mention of a Command spells are the keys it has.
pub proof fn law_mentioned_command_has_the_keys_listed(
    overrides: Seq<(Seq<char>, Seq<Seq<char>>)>,
    i: int,
    mention: int,
)
    requires
        0 <= i < builtin_commands().len(),
        0 <= mention < overrides.len(),
        overrides[mention].0 == builtin_commands()[i].id,
        forall|j: int|
            mention < j < overrides.len() ==> (#[trigger] overrides[j]).0
                != builtin_commands()[i].id,
    ensures
        with_overrides(builtin_commands(), overrides)[i] == (CommandModel {
            keys: spelled_keys(overrides[mention].1),
            ..builtin_commands()[i]
        }),
    decreases overrides.len(),
{
    let compiled = builtin_commands();
    let shorter = overrides.drop_last();
    let earlier = with_overrides(compiled, shorter);
    let ids = command_ids(earlier);
    lemma_overrides_keep_the_rest(compiled, shorter);
    lemma_first_position(ids, overrides.last().0);
    if mention == overrides.len() - 1 {
        law_builtin_identifiers_are_distinct();
        assert(ids[i] == compiled[i].id);
        assert forall|j: int| 0 <= j < i implies ids[j] != overrides.last().0 by {
            assert(ids[j] == command_ids(compiled)[j]);
            assert(command_ids(compiled)[j] != command_ids(compiled)[i]);
        }
        lemma_first_position_found(ids, overrides.last().0, i);
        assert(earlier[i] == (CommandModel { keys: earlier[i].keys, ..compiled[i] }));
    } else {
        assert forall|j: int| mention < j < shorter.len() implies (#[trigger] shorter[j]).0
            != compiled[i].id by {
            assert(shorter[j] == overrides[j]);
        }
        law_mentioned_command_has_the_keys_listed(shorter, i, mention);
        assert(overrides[overrides.len() - 1].0 != compiled[i].id);
        assert(ids[i] == compiled[i].id);
    }
}

/// An empty list disables a Command: no key invokes it anywhere.
pub proof fn law_empty_list_disables(command: CommandModel, scope: CommandScope)
    requires
        command.keys.len() == 0,
    ensures
        !offered(command, scope),
{
}

proof fn lemma_emergency_claims_complete(registry: Seq<CommandModel>, i: int)
    requires
        0 <= i < registry.len(),
        registry[i].command != Command::Quit,
        registry[i].keys.contains(emergency_quit()),
    ensures
        emergency_claims(registry).len() > 0,
    decreases registry.len(),
{
    if i < registry.len() - 1 {
        assert(registry.drop_last()[i] == registry[i]);
        lemma_emergency_claims_complete(registry.drop_last(), i);
    }
}

/// In every accepted configuration `ctrl+c` is bound to Quit and to nothing
/// else.
pub proof fn law_emergency_key_quits_and_nothing_else(
    overrides: Seq<(Seq<char>, Seq<Seq<char>>)>,
    i: int,
)
    requires
        configuration_problems(overrides).len() == 0,
        0 <= i < configured(overrides).len(),
    ensures
        configured(overrides)[i].keys.contains(emergency_quit()) <==> configured(
            overrides,
        )[i].command == Command::Quit,
{
    let plain = with_overrides(builtin_commands(), overrides);
    let command = plain[i];
    assert(configured(overrides)[i] == quittable(command));
    if command.command == Command::Quit {
        let keys = command.keys.push(emergency_quit());
        assert(keys[keys.len() - 1] == emergency_quit());
    } else if command.keys.contains(emergency_quit()) {
        lemma_emergency_claims_complete(plain, i);
    }
}

/// No scope of an accepted configuration resolves `ctrl+c` to anything but
/// Quit.
pub proof fn law_emergency_key_never_resolves_to_another_command(
    overrides: Seq<(Seq<char>, Seq<Seq<char>>)>,
    scope: CommandScope,
)
    requires
        configuration_problems(overrides).len() == 0,
    ensures
        resolved(configured(overrides), scope, emergency_quit()) matches Some(command) ==> command
            == Command::Quit,
{
    let registry = configured(overrides);
    if let Some(command) = resolved(registry, scope, emergency_quit()) {
        let i = lemma_resolved_is_registered(registry, scope, emergency_quit());
        law_emergency_key_quits_and_nothing_else(overrides, i);
    }
}

/// A resolved Command is one that is offered and bound to the key.
proof fn lemma_resolved_is_registered(
    registry: Seq<CommandModel>,
    scope: CommandScope,
    key: Key,
) -> (i: int)
    requires
        resolved(registry, scope, key) is Some,
    ensures
        0 <= i < registry.len(),
        offered(registry[i], scope),
        registry[i].keys.contains(key),
        resolved(registry, scope, key) == Some(registry[i].command),
    decreases registry.len(),
{
    if offered(registry[0], scope) && registry[0].keys.contains(key) {
        0
    } else {
        let j = lemma_resolved_is_registered(registry.drop_first(), scope, key);
        j + 1
    }
}

pub(crate) proof fn lemma_first_claimant(
    registry: Seq<CommandModel>,
    scope: CommandScope,
    key: Key,
    i: int,
)
    requires
        0 <= i < registry.len(),
        claims(registry[i], scope, key),
    ensures
        0 <= first_claimant(registry, scope, key) <= i,
        claims(registry[first_claimant(registry, scope, key)], scope, key),
    decreases registry.len(),
{
    if !claims(registry[0], scope, key) {
        assert(registry.drop_first()[i - 1] == registry[i]);
        lemma_first_claimant(registry.drop_first(), scope, key, i - 1);
    }
}

/// A claim that is not the first is a conflict.
proof fn lemma_conflicts_over_keys(
    registry: Seq<CommandModel>,
    command: int,
    scope: CommandScope,
    count: nat,
    conflicts: Seq<KeybindingProblem>,
    k: int,
)
    requires
        0 <= k < count,
    ensures
        conflicts_over_keys(registry, command, scope, count, conflicts).len() == 0 ==> ({
            let key = registry[command].keys[k];
            key == emergency_quit() || registry[first_claimant(registry, scope, key)].id
                == registry[command].id
        }),
    decreases count,
{
    if k < count - 1 {
        lemma_conflicts_over_keys(registry, command, scope, (count - 1) as nat, conflicts, k);
    }
}

proof fn lemma_conflicts_over_keys_grow(
    registry: Seq<CommandModel>,
    command: int,
    scope: CommandScope,
    count: nat,
    conflicts: Seq<KeybindingProblem>,
)
    ensures
        conflicts_over_keys(registry, command, scope, count, conflicts).len() >= conflicts.len(),
    decreases count,
{
    if count > 0 {
        lemma_conflicts_over_keys_grow(registry, command, scope, (count - 1) as nat, conflicts);
    }
}

proof fn lemma_conflicts_over_scopes(
    registry: Seq<CommandModel>,
    command: int,
    count: nat,
    conflicts: Seq<KeybindingProblem>,
)
    ensures
        conflicts_over_scopes(registry, command, count, conflicts).len() >= conflicts.len(),
        conflicts_over_scopes(registry, command, count, conflicts).len() == 0 ==> forall|
            s: int,
            k: int,
        |
            0 <= s < count && 0 <= k < registry[command].keys.len() ==> {
                let key = #[trigger] registry[command].keys[k];
                key == emergency_quit() || registry[first_claimant(
                    registry,
                    #[trigger] registry[command].scopes[s],
                    key,
                )].id == registry[command].id
            },
    decreases count,
{
    if count > 0 {
        lemma_conflicts_over_scopes(registry, command, (count - 1) as nat, conflicts);
        let earlier = conflicts_over_scopes(registry, command, (count - 1) as nat, conflicts);
        let scope = registry[command].scopes[count - 1];
        let keys = registry[command].keys;
        lemma_conflicts_over_keys_grow(registry, command, scope, keys.len(), earlier);
        if conflicts_over_scopes(registry, command, count, conflicts).len() == 0 {
            assert forall|s: int, k: int| 0 <= s < count && 0 <= k < keys.len() implies {
                let key = #[trigger] registry[command].keys[k];
                key == emergency_quit() || registry[first_claimant(
                    registry,
                    #[trigger] registry[command].scopes[s],
                    key,
                )].id == registry[command].id
            } by {
                if s == count - 1 {
                    lemma_conflicts_over_keys(registry, command, scope, keys.len(), earlier, k);
                }
            }
        }
    }
}

proof fn lemma_conflicts_among(registry: Seq<CommandModel>, count: nat, command: int)
    requires
        0 <= command < count <= registry.len(),
    ensures
        conflicts_among(registry, count).len() == 0 ==> forall|s: int, k: int|
            0 <= s < registry[command].scopes.len() && 0 <= k < registry[command].keys.len() ==> {
                let key = #[trigger] registry[command].keys[k];
                key == emergency_quit() || registry[first_claimant(
                    registry,
                    #[trigger] registry[command].scopes[s],
                    key,
                )].id == registry[command].id
            },
    decreases count,
{
    let earlier = conflicts_among(registry, (count - 1) as nat);
    lemma_conflicts_over_scopes(
        registry,
        count - 1,
        registry[count - 1].scopes.len(),
        earlier,
    );
    if command < count - 1 {
        lemma_conflicts_among(registry, (count - 1) as nat, command);
    }
}

/// A registry without conflicts has no key that two Commands claim in one
/// scope.
proof fn lemma_one_claimant(
    registry: Seq<CommandModel>,
    scope: CommandScope,
    key: Key,
    i: int,
    j: int,
)
    requires
        conflicts_in(registry).len() == 0,
        command_ids(registry).no_duplicates(),
        key != emergency_quit(),
        0 <= i < registry.len(),
        0 <= j < registry.len(),
        claims(registry[i], scope, key),
        claims(registry[j], scope, key),
    ensures
        i == j,
{
    lemma_conflicts_among(registry, registry.len(), i);
    lemma_conflicts_among(registry, registry.len(), j);
    lemma_first_claimant(registry, scope, key, i);
    let f = first_claimant(registry, scope, key);
    let si = choose|s: int| 0 <= s < registry[i].scopes.len() && registry[i].scopes[s] == scope;
    let ki = choose|k: int| 0 <= k < registry[i].keys.len() && registry[i].keys[k] == key;
    let sj = choose|s: int| 0 <= s < registry[j].scopes.len() && registry[j].scopes[s] == scope;
    let kj = choose|k: int| 0 <= k < registry[j].keys.len() && registry[j].keys[k] == key;
    assert(registry[i].keys[ki] == key && registry[i].scopes[si] == scope);
    assert(registry[j].keys[kj] == key && registry[j].scopes[sj] == scope);
    assert(registry[f].id == registry[i].id);
    assert(registry[f].id == registry[j].id);
    assert(command_ids(registry)[i] == command_ids(registry)[j]);
}

/// The compiled Commands are registered for structural scopes only, never for
/// one particular Resource Panel.
proof fn lemma_builtin_scopes(i: int)
    requires
        0 <= i < builtin_commands().len(),
    ensures
        forall|s: int|
            0 <= s < builtin_commands()[i].scopes.len() ==> !(#[trigger] builtin_commands()[i].scopes[s]
                is ResourcePanel),
{
    let scopes = builtin_commands()[i].scopes;
    if i < 4 {
        assert(builtin_commands()[i] == application_commands()[i - 0]);
    } else if i < 13 {
        assert(builtin_commands()[i] == panel_focus_commands()[i - 4]);
    } else if i < 22 {
        assert(builtin_commands()[i] == navigation_commands()[i - 13]);
    } else if i < 29 {
        assert(builtin_commands()[i] == detail_commands()[i - 22]);
    } else if i < 31 {
        assert(builtin_commands()[i] == modal_commands()[i - 29]);
    } else {
        assert(builtin_commands()[i] == resource_commands()[i - 31]);
    }
    assert(scopes == workspace_scopes() || scopes == selectable_scopes() || scopes
        == resource_scopes() || scopes == details_scopes() || scopes == modal_scopes() || scopes
        == help_scopes());
}

/// In every accepted configuration a key invokes at most one Command in a
/// scope, so registration order is never a hidden priority.
pub proof fn law_a_key_invokes_one_command(
    overrides: Seq<(Seq<char>, Seq<Seq<char>>)>,
    scope: CommandScope,
    key: Key,
    i: int,
    j: int,
)
    requires
        configuration_problems(overrides).len() == 0,
        0 <= i < configured(overrides).len(),
        0 <= j < configured(overrides).len(),
        offered(configured(overrides)[i], scope),
        offered(configured(overrides)[j], scope),
        configured(overrides)[i].keys.contains(key),
        configured(overrides)[j].keys.contains(key),
    ensures
        configured(overrides)[i].command == configured(overrides)[j].command,
        key != emergency_quit() ==> i == j,
{
    let plain = with_overrides(builtin_commands(), overrides);
    let registry = configured(overrides);
    lemma_overrides_keep_the_rest(builtin_commands(), overrides);
    law_builtin_identifiers_are_distinct();
    assert(registry.len() == plain.len());
    assert(command_ids(registry) =~= command_ids(builtin_commands())) by {
        assert forall|c: int| 0 <= c < registry.len() implies command_ids(registry)[c]
            == command_ids(builtin_commands())[c] by {
            assert(registry[c] == quittable(plain[c]));
            assert(plain[c] == (CommandModel { keys: plain[c].keys, ..builtin_commands()[c] }));
        }
    }
    if key == emergency_quit() {
        law_emergency_key_quits_and_nothing_else(overrides, i);
        law_emergency_key_quits_and_nothing_else(overrides, j);
    } else {
        let common = if scope is ResourcePanel {
            CommandScope::ResourceView
        } else {
            scope
        };
        lemma_offered_through(overrides, scope, i);
        lemma_offered_through(overrides, scope, j);
        lemma_one_claimant(registry, common, key, i, j);
    }
}

/// A Command offered in a Resource Panel is registered for the resource view,
/// and one offered anywhere else for that very scope.
proof fn lemma_offered_through(
    overrides: Seq<(Seq<char>, Seq<Seq<char>>)>,
    scope: CommandScope,
    i: int,
)
    requires
        0 <= i < configured(overrides).len(),
        offered(configured(overrides)[i], scope),
    ensures
        configured(overrides)[i].scopes.contains(
            if scope is ResourcePanel {
                CommandScope::ResourceView
            } else {
                scope
            },
        ),
{
    let plain = with_overrides(builtin_commands(), overrides);
    let command = configured(overrides)[i];
    lemma_overrides_keep_the_rest(builtin_commands(), overrides);
    lemma_builtin_scopes(i);
    assert(command == quittable(plain[i]));
    assert(plain[i] == (CommandModel { keys: plain[i].keys, ..builtin_commands()[i] }));
    assert(command.scopes == builtin_commands()[i].scopes);
    let s = choose|s: int|
        0 <= s < command.scopes.len() && (#[trigger] command.scopes[s] == scope || (
        command.scopes[s] == CommandScope::ResourceView && scope is ResourcePanel));
    assert(!(builtin_commands()[i].scopes[s] is ResourcePanel));
    assert(command.scopes[s] == if scope is ResourcePanel {
        CommandScope::ResourceView
    } else {
        scope
    });
}

} // verus!
