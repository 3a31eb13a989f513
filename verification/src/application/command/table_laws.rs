//! What holds of the compiled table, and of resolving a key.

use vstd::prelude::*;

use super::defaults::{
    application_commands, builtin_commands, character_key, control_key, detail_commands,
    modal_commands, named_key, navigation_commands, panel_focus_commands, resource_commands,
};
use super::laws::{law_a_key_invokes_one_command, lemma_first_claimant};
use super::{
    claims, configuration_problems, configured, conflicts_among, conflicts_over_keys,
    conflicts_over_scopes, emergency_claims, emergency_quit, first_claimant, offered, quittable,
    resolved, with_emergency_quit, CommandModel, CommandScope,
};
use crate::application::key::{Key, Named};
use crate::application::keybinding::KeybindingProblem;

verus! {

spec fn is_modal(scope: CommandScope) -> bool {
    scope == CommandScope::Confirmation || scope == CommandScope::CommandFailure || scope
        == CommandScope::HelpOverlay
}

/// Where the compiled table registers the Command that claims a key while a
/// modal is open.
spec fn modal_owner(key: Key) -> int {
    if key == character_key('?') {
        1
    } else if key == character_key('y') {
        29
    } else if key == named_key(Named::Enter) {
        29
    } else if key == named_key(Named::Esc) {
        30
    } else if key == character_key('n') {
        30
    } else {
        -1
    }
}

/// Where the compiled table registers the Command that claims a key while none
/// is.
spec fn workspace_owner(key: Key) -> int {
    if key == character_key('q') {
        0
    } else if key == character_key('?') {
        1
    } else if key == control_key('r') {
        2
    } else if key == character_key('1') {
        3
    } else if key == character_key('2') {
        4
    } else if key == character_key('3') {
        5
    } else if key == character_key('4') {
        6
    } else if key == character_key('5') {
        7
    } else if key == character_key('6') {
        8
    } else if key == character_key('7') {
        9
    } else if key == character_key('8') {
        10
    } else if key == character_key('9') {
        11
    } else if key == character_key('0') {
        12
    } else if key == named_key(Named::Enter) {
        13
    } else if key == named_key(Named::Tab) {
        14
    } else if key == named_key(Named::BackTab) {
        15
    } else if key == character_key('j') {
        16
    } else if key == named_key(Named::Down) {
        16
    } else if key == character_key('k') {
        17
    } else if key == named_key(Named::Up) {
        17
    } else if key == character_key('J') {
        18
    } else if key == character_key('K') {
        19
    } else if key == character_key(']') {
        20
    } else if key == character_key('[') {
        21
    } else if key == character_key('l') {
        22
    } else if key == named_key(Named::Right) {
        22
    } else if key == character_key('h') {
        23
    } else if key == named_key(Named::Left) {
        23
    } else if key == control_key('d') {
        24
    } else if key == named_key(Named::PageDown) {
        24
    } else if key == control_key('u') {
        25
    } else if key == named_key(Named::PageUp) {
        25
    } else if key == character_key('y') {
        26
    } else if key == character_key('<') {
        27
    } else if key == character_key('>') {
        28
    } else if key == character_key('S') {
        31
    } else if key == character_key('s') {
        32
    } else if key == character_key('r') {
        33
    } else if key == character_key('p') {
        34
    } else if key == character_key('E') {
        35
    } else if key == character_key('d') {
        36
    } else {
        -1
    }
}

spec fn owner(scope: CommandScope, key: Key) -> int {
    if is_modal(scope) {
        modal_owner(key)
    } else {
        workspace_owner(key)
    }
}

/// Whether every key of a Command is its own in every scope of the Command, and
/// none is the emergency key.
spec fn owns_its_keys(command: CommandModel, place: int) -> bool {
    &&& forall|s: int, k: int|
        0 <= s < command.scopes.len() && 0 <= k < command.keys.len() ==> owner(
            #[trigger] command.scopes[s],
            #[trigger] command.keys[k],
        ) == place
    &&& forall|k: int|
        0 <= k < command.keys.len() ==> #[trigger] command.keys[k] != emergency_quit()
}

proof fn lemma_application_commands_own_their_keys(i: int)
    requires
        0 <= i < 4,
    ensures
        owns_its_keys(application_commands()[i], i + 0),
{
    if i == 0 {
        assert(owns_its_keys(application_commands()[0], 0));
    } else if i == 1 {
        assert(owns_its_keys(application_commands()[1], 1));
    } else if i == 2 {
        assert(owns_its_keys(application_commands()[2], 2));
    } else if i == 3 {
        assert(owns_its_keys(application_commands()[3], 3));
    }
}

proof fn lemma_panel_focus_commands_own_their_keys(i: int)
    requires
        0 <= i < 9,
    ensures
        owns_its_keys(panel_focus_commands()[i], i + 4),
{
    if i == 0 {
        assert(owns_its_keys(panel_focus_commands()[0], 4));
    } else if i == 1 {
        assert(owns_its_keys(panel_focus_commands()[1], 5));
    } else if i == 2 {
        assert(owns_its_keys(panel_focus_commands()[2], 6));
    } else if i == 3 {
        assert(owns_its_keys(panel_focus_commands()[3], 7));
    } else if i == 4 {
        assert(owns_its_keys(panel_focus_commands()[4], 8));
    } else if i == 5 {
        assert(owns_its_keys(panel_focus_commands()[5], 9));
    } else if i == 6 {
        assert(owns_its_keys(panel_focus_commands()[6], 10));
    } else if i == 7 {
        assert(owns_its_keys(panel_focus_commands()[7], 11));
    } else if i == 8 {
        assert(owns_its_keys(panel_focus_commands()[8], 12));
    }
}

proof fn lemma_navigation_commands_own_their_keys(i: int)
    requires
        0 <= i < 9,
    ensures
        owns_its_keys(navigation_commands()[i], i + 13),
{
    if i == 0 {
        assert(owns_its_keys(navigation_commands()[0], 13));
    } else if i == 1 {
        assert(owns_its_keys(navigation_commands()[1], 14));
    } else if i == 2 {
        assert(owns_its_keys(navigation_commands()[2], 15));
    } else if i == 3 {
        assert(owns_its_keys(navigation_commands()[3], 16));
    } else if i == 4 {
        assert(owns_its_keys(navigation_commands()[4], 17));
    } else if i == 5 {
        assert(owns_its_keys(navigation_commands()[5], 18));
    } else if i == 6 {
        assert(owns_its_keys(navigation_commands()[6], 19));
    } else if i == 7 {
        assert(owns_its_keys(navigation_commands()[7], 20));
    } else if i == 8 {
        assert(owns_its_keys(navigation_commands()[8], 21));
    }
}

proof fn lemma_detail_commands_own_their_keys(i: int)
    requires
        0 <= i < 7,
    ensures
        owns_its_keys(detail_commands()[i], i + 22),
{
    if i == 0 {
        assert(owns_its_keys(detail_commands()[0], 22));
    } else if i == 1 {
        assert(owns_its_keys(detail_commands()[1], 23));
    } else if i == 2 {
        assert(owns_its_keys(detail_commands()[2], 24));
    } else if i == 3 {
        assert(owns_its_keys(detail_commands()[3], 25));
    } else if i == 4 {
        assert(owns_its_keys(detail_commands()[4], 26));
    } else if i == 5 {
        assert(owns_its_keys(detail_commands()[5], 27));
    } else if i == 6 {
        assert(owns_its_keys(detail_commands()[6], 28));
    }
}

proof fn lemma_modal_commands_own_their_keys(i: int)
    requires
        0 <= i < 2,
    ensures
        owns_its_keys(modal_commands()[i], i + 29),
{
    if i == 0 {
        assert(owns_its_keys(modal_commands()[0], 29));
    } else if i == 1 {
        assert(owns_its_keys(modal_commands()[1], 30));
    }
}

proof fn lemma_resource_commands_own_their_keys(i: int)
    requires
        0 <= i < 6,
    ensures
        owns_its_keys(resource_commands()[i], i + 31),
{
    if i == 0 {
        assert(owns_its_keys(resource_commands()[0], 31));
    } else if i == 1 {
        assert(owns_its_keys(resource_commands()[1], 32));
    } else if i == 2 {
        assert(owns_its_keys(resource_commands()[2], 33));
    } else if i == 3 {
        assert(owns_its_keys(resource_commands()[3], 34));
    } else if i == 4 {
        assert(owns_its_keys(resource_commands()[4], 35));
    } else if i == 5 {
        assert(owns_its_keys(resource_commands()[5], 36));
    }
}

proof fn lemma_builtin_owns_its_keys(i: int)
    requires
        0 <= i < builtin_commands().len(),
    ensures
        owns_its_keys(builtin_commands()[i], i),
{
    if i < 4 {
        assert(builtin_commands()[i] == application_commands()[i - 0]);
        lemma_application_commands_own_their_keys(i - 0);
    } else if i < 13 {
        assert(builtin_commands()[i] == panel_focus_commands()[i - 4]);
        lemma_panel_focus_commands_own_their_keys(i - 4);
    } else if i < 22 {
        assert(builtin_commands()[i] == navigation_commands()[i - 13]);
        lemma_navigation_commands_own_their_keys(i - 13);
    } else if i < 29 {
        assert(builtin_commands()[i] == detail_commands()[i - 22]);
        lemma_detail_commands_own_their_keys(i - 22);
    } else if i < 31 {
        assert(builtin_commands()[i] == modal_commands()[i - 29]);
        lemma_modal_commands_own_their_keys(i - 29);
    } else {
        assert(builtin_commands()[i] == resource_commands()[i - 31]);
        lemma_resource_commands_own_their_keys(i - 31);
    }
}

/// Whether no two Commands claim a key in one scope, the emergency key aside.
spec fn keys_are_owned(registry: Seq<CommandModel>) -> bool {
    forall|i: int, s: CommandScope, k: Key|
        0 <= i < registry.len() && #[trigger] claims(registry[i], s, k) && k != emergency_quit()
            ==> owner(s, k) == i
}

proof fn lemma_no_conflicts_over_keys(
    registry: Seq<CommandModel>,
    command: int,
    scope: CommandScope,
    count: nat,
)
    requires
        keys_are_owned(registry),
        0 <= command < registry.len(),
        registry[command].scopes.contains(scope),
        count <= registry[command].keys.len(),
    ensures
        conflicts_over_keys(registry, command, scope, count, Seq::empty()) == Seq::<
            KeybindingProblem,
        >::empty(),
    decreases count,
{
    if count > 0 {
        lemma_no_conflicts_over_keys(registry, command, scope, (count - 1) as nat);
        let key = registry[command].keys[count - 1];
        assert(registry[command].keys.contains(key));
        assert(claims(registry[command], scope, key));
        lemma_first_claimant(registry, scope, key, command);
        let first = first_claimant(registry, scope, key);
        assert(claims(registry[first], scope, key));
    }
}

proof fn lemma_no_conflicts_over_scopes(registry: Seq<CommandModel>, command: int, count: nat)
    requires
        keys_are_owned(registry),
        0 <= command < registry.len(),
        count <= registry[command].scopes.len(),
    ensures
        conflicts_over_scopes(registry, command, count, Seq::empty()) == Seq::<
            KeybindingProblem,
        >::empty(),
    decreases count,
{
    if count > 0 {
        lemma_no_conflicts_over_scopes(registry, command, (count - 1) as nat);
        let scope = registry[command].scopes[count - 1];
        assert(registry[command].scopes.contains(scope));
        lemma_no_conflicts_over_keys(
            registry,
            command,
            scope,
            registry[command].keys.len(),
        );
    }
}

proof fn lemma_no_conflicts_among(registry: Seq<CommandModel>, count: nat)
    requires
        keys_are_owned(registry),
        count <= registry.len(),
    ensures
        conflicts_among(registry, count) == Seq::<KeybindingProblem>::empty(),
    decreases count,
{
    if count > 0 {
        lemma_no_conflicts_among(registry, (count - 1) as nat);
        lemma_no_conflicts_over_scopes(
            registry,
            count - 1,
            registry[count - 1].scopes.len(),
        );
    }
}

proof fn lemma_no_emergency_claims(registry: Seq<CommandModel>)
    requires
        forall|i: int|
            0 <= i < registry.len() ==> !(#[trigger] registry[i]).keys.contains(emergency_quit()),
    ensures
        emergency_claims(registry).len() == 0,
    decreases registry.len(),
{
    if registry.len() > 0 {
        assert forall|i: int| 0 <= i < registry.drop_last().len() implies !(
        #[trigger] registry.drop_last()[i]).keys.contains(emergency_quit()) by {
            assert(registry.drop_last()[i] == registry[i]);
        }
        assert(!registry[registry.len() - 1].keys.contains(emergency_quit()));
        lemma_no_emergency_claims(registry.drop_last());
    }
}

proof fn lemma_builtin_keys_are_owned()
    ensures
        keys_are_owned(configured(Seq::empty())),
        forall|i: int|
            0 <= i < builtin_commands().len() ==> !(
            #[trigger] builtin_commands()[i]).keys.contains(emergency_quit()),
{
    let registry = configured(Seq::empty());
    assert(registry == with_emergency_quit(builtin_commands()));
    assert forall|i: int| 0 <= i < builtin_commands().len() implies !(
    #[trigger] builtin_commands()[i]).keys.contains(emergency_quit()) by {
        lemma_builtin_owns_its_keys(i);
    }
    assert forall|i: int, s: CommandScope, k: Key|
        0 <= i < registry.len() && #[trigger] claims(registry[i], s, k) && k
            != emergency_quit() implies owner(s, k) == i by {
        lemma_builtin_owns_its_keys(i);
        let command = builtin_commands()[i];
        assert(registry[i] == quittable(command));
        let scope = choose|n: int| 0 <= n < registry[i].scopes.len() && registry[i].scopes[n] == s;
        let key = choose|n: int| 0 <= n < registry[i].keys.len() && registry[i].keys[n] == k;
        assert(key < command.keys.len());
        assert(command.scopes[scope] == s && command.keys[key] == k);
    }
}

/// The compiled table is free of conflicts: a configuration that changes
/// nothing is accepted.
pub proof fn law_the_compiled_table_is_accepted()
    ensures
        configuration_problems(Seq::empty()) == Seq::<KeybindingProblem>::empty(),
        configured(Seq::empty()) == with_emergency_quit(builtin_commands()),
{
    lemma_builtin_keys_are_owned();
    lemma_no_emergency_claims(builtin_commands());
    lemma_no_conflicts_among(configured(Seq::empty()), configured(Seq::empty()).len());
}

/// In the compiled table a key invokes at most one Command in a scope.
pub proof fn law_a_compiled_key_invokes_one_command(
    scope: CommandScope,
    key: Key,
    i: int,
    j: int,
)
    requires
        0 <= i < builtin_commands().len(),
        0 <= j < builtin_commands().len(),
        offered(builtin_commands()[i], scope),
        offered(builtin_commands()[j], scope),
        builtin_commands()[i].keys.contains(key),
        builtin_commands()[j].keys.contains(key),
    ensures
        i == j,
{
    let registry = configured(Seq::empty());
    law_the_compiled_table_is_accepted();
    lemma_builtin_keys_are_owned();
    assert(key != emergency_quit());
    assert forall|c: int|
        0 <= c < registry.len() && #[trigger] builtin_commands()[c].keys.contains(
            key,
        ) implies registry[c].keys.contains(key) by {
        let command = builtin_commands()[c];
        assert(registry[c] == quittable(command));
        let n = choose|n: int| 0 <= n < command.keys.len() && command.keys[n] == key;
        assert(registry[c].keys[n] == key);
    }
    assert(registry[i] == quittable(builtin_commands()[i]));
    assert(registry[j] == quittable(builtin_commands()[j]));
    law_a_key_invokes_one_command(Seq::empty(), scope, key, i, j);
}

proof fn lemma_resolving(registry: Seq<CommandModel>, scope: CommandScope, key: Key)
    ensures
        match resolved(registry, scope, key) {
            Some(command) => exists|i: int|
                0 <= i < registry.len() && #[trigger] offered(registry[i], scope)
                    && registry[i].keys.contains(key) && registry[i].command == command,
            None => forall|i: int|
                0 <= i < registry.len() && #[trigger] offered(registry[i], scope)
                    ==> !registry[i].keys.contains(key),
        },
    decreases registry.len(),
{
    if registry.len() > 0 {
        if offered(registry[0], scope) && registry[0].keys.contains(key) {
            assert(offered(registry[0], scope));
        } else {
            let rest = registry.drop_first();
            lemma_resolving(rest, scope, key);
            match resolved(rest, scope, key) {
                Some(command) => {
                    let i = choose|i: int|
                        0 <= i < rest.len() && #[trigger] offered(rest[i], scope)
                            && rest[i].keys.contains(key) && rest[i].command == command;
                    assert(registry[i + 1] == rest[i]);
                    assert(offered(registry[i + 1], scope));
                },
                None => {
                    assert forall|i: int|
                        0 <= i < registry.len() && #[trigger] offered(
                            registry[i],
                            scope,
                        ) implies !registry[i].keys.contains(key) by {
                        if i > 0 {
                            assert(offered(rest[i - 1], scope));
                        }
                    }
                },
            }
        }
    }
}

/// Resolving a key finds the one Command that lists it among those offered in
/// the scope, and nothing where none does: registration order plays no part,
/// neither in an accepted configuration nor in the compiled table.
pub proof fn law_resolving_does_not_depend_on_order(
    overrides: Seq<(Seq<char>, Seq<Seq<char>>)>,
    scope: CommandScope,
    key: Key,
)
    ensures
        configuration_problems(overrides).len() == 0 ==> resolves_uniquely(
            configured(overrides),
            scope,
            key,
        ),
        resolves_uniquely(builtin_commands(), scope, key),
{
    let registry = configured(overrides);
    if configuration_problems(overrides).len() == 0 {
        lemma_resolving(registry, scope, key);
        assert forall|i: int|
            0 <= i < registry.len() && #[trigger] offered(registry[i], scope)
                && registry[i].keys.contains(key) implies resolved(registry, scope, key) == Some(
            registry[i].command,
        ) by {
            let found = resolved(registry, scope, key)->0;
            let j = choose|j: int|
                0 <= j < registry.len() && #[trigger] offered(registry[j], scope)
                    && registry[j].keys.contains(key) && registry[j].command == found;
            law_a_key_invokes_one_command(overrides, scope, key, i, j);
        }
    }
    let compiled = builtin_commands();
    lemma_resolving(compiled, scope, key);
    assert forall|i: int|
        0 <= i < compiled.len() && #[trigger] offered(compiled[i], scope)
            && compiled[i].keys.contains(key) implies resolved(compiled, scope, key) == Some(
        compiled[i].command,
    ) by {
        let found = resolved(compiled, scope, key)->0;
        let j = choose|j: int|
            0 <= j < compiled.len() && #[trigger] offered(compiled[j], scope)
                && compiled[j].keys.contains(key) && compiled[j].command == found;
        law_a_compiled_key_invokes_one_command(scope, key, i, j);
    }
}

/// Whether every Command that lists a key in a scope is the one that the key
/// resolves to, and the key resolves to nothing where none does.
pub open spec fn resolves_uniquely(
    registry: Seq<CommandModel>,
    scope: CommandScope,
    key: Key,
) -> bool {
    &&& forall|i: int|
        0 <= i < registry.len() && #[trigger] offered(registry[i], scope)
            && registry[i].keys.contains(key) ==> resolved(registry, scope, key) == Some(
            registry[i].command,
        )
    &&& (forall|i: int|
        0 <= i < registry.len() && #[trigger] offered(registry[i], scope)
            ==> !registry[i].keys.contains(key)) ==> resolved(registry, scope, key) is None
}

} // verus!
