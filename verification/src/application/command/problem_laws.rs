//! What is reported of a table of overrides, and what is not.

use vstd::prelude::*;

use super::{
    claims, command_ids, conflicts_among, conflicts_in, conflicts_over_keys, conflicts_over_scopes,
    emergency_claims, first_claimant, override_problems, overrides_problems, repetitions,
    spelled_keys, unspelled, with_overrides, Command, CommandModel, CommandScope,
};
use crate::application::key::{parsed, shown, Key, KeyCode};
use crate::application::keybinding::{duplicates, KeybindingProblem};

verus! {

/// Whether a key stands twice in a list.
pub open spec fn stands_twice(keys: Seq<Key>, key: Key) -> bool {
    exists|i: int, j: int| 0 <= i < j < keys.len() && #[trigger] keys[i] == key && #[trigger] keys[j] == key
}

proof fn lemma_unspelled(id: Seq<char>, texts: Seq<Seq<char>>)
    ensures
        forall|i: int|
            0 <= i < texts.len() && parsed(#[trigger] texts[i]) is None ==> unspelled(
                id,
                texts,
            ).contains(KeybindingProblem::InvalidKey { id, key: texts[i] }),
        forall|k: int|
            0 <= k < unspelled(id, texts).len() ==> (#[trigger] unspelled(id, texts)[k] matches
                KeybindingProblem::InvalidKey { id: reported, key } && reported == id
                && parsed(key) is None && texts.contains(key)),
    decreases texts.len(),
{
    if texts.len() > 0 {
        let rest = texts.drop_last();
        lemma_unspelled(id, rest);
        let earlier = unspelled(id, rest);
        let all = unspelled(id, texts);
        assert forall|i: int|
            0 <= i < texts.len() && parsed(#[trigger] texts[i]) is None implies all.contains(
            KeybindingProblem::InvalidKey { id, key: texts[i] },
        ) by {
            let problem = KeybindingProblem::InvalidKey { id, key: texts[i] };
            if i == texts.len() - 1 {
                assert(all[all.len() - 1] == problem);
            } else {
                assert(rest[i] == texts[i]);
                let k = choose|k: int| 0 <= k < earlier.len() && earlier[k] == problem;
                assert(all[k] == problem);
            }
        }
        assert forall|k: int| 0 <= k < all.len() implies (#[trigger] all[k] matches
            KeybindingProblem::InvalidKey { id: reported, key } && reported == id && parsed(
            key,
        ) is None && texts.contains(key)) by {
            if k < earlier.len() {
                assert(all[k] == earlier[k]);
                let key = earlier[k]->InvalidKey_key;
                assert(rest.contains(key));
                let i = choose|i: int| 0 <= i < rest.len() && rest[i] == key;
                assert(texts[i] == key);
            } else {
                assert(texts[texts.len() - 1] == texts.last());
            }
        }
    }
}

proof fn lemma_duplicates(keys: Seq<Key>)
    ensures
        forall|key: Key| #[trigger] duplicates(keys).contains(key) <==> stands_twice(keys, key),
    decreases keys.len(),
{
    if keys.len() > 0 {
        let rest = keys.drop_last();
        lemma_duplicates(rest);
        let earlier = duplicates(rest);
        let all = duplicates(keys);
        let last = keys.last();
        assert forall|key: Key| #[trigger] all.contains(key) <==> stands_twice(keys, key) by {
            if all.contains(key) {
                let k = choose|k: int| 0 <= k < all.len() && all[k] == key;
                if k < earlier.len() {
                    assert(earlier[k] == key);
                    assert(earlier.contains(key));
                    let (i, j) = choose|i: int, j: int|
                        0 <= i < j < rest.len() && #[trigger] rest[i] == key && #[trigger] rest[j]
                            == key;
                    assert(keys[i] == key && keys[j] == key);
                } else {
                    let i = choose|i: int| 0 <= i < rest.len() && rest[i] == last;
                    assert(keys[i] == key && keys[keys.len() - 1] == key);
                }
            }
            if stands_twice(keys, key) {
                let (i, j) = choose|i: int, j: int|
                    0 <= i < j < keys.len() && #[trigger] keys[i] == key && #[trigger] keys[j]
                        == key;
                assert(rest[i] == key);
                if j < rest.len() {
                    assert(rest[j] == key);
                    assert(stands_twice(rest, key));
                    assert(earlier.contains(key));
                    let k = choose|k: int| 0 <= k < earlier.len() && earlier[k] == key;
                    assert(all[k] == key);
                } else {
                    assert(rest.contains(last));
                    if earlier.contains(last) {
                        let k = choose|k: int| 0 <= k < earlier.len() && earlier[k] == last;
                        assert(all[k] == key);
                    } else {
                        assert(all[all.len() - 1] == key);
                    }
                }
            }
        }
    } else {
        assert forall|key: Key| #[trigger] duplicates(keys).contains(key) <==> stands_twice(
            keys,
            key,
        ) by {
            assert(duplicates(keys).len() == 0);
        }
    }
}

/// An override is reported for each text that spells no key, for each key that
/// it lists twice and for naming no Command; and where none of these holds,
/// for nothing.
pub proof fn law_an_override_is_reported_for_what_is_wrong_with_it(
    registry: Seq<CommandModel>,
    id: Seq<char>,
    texts: Seq<Seq<char>>,
    i: int,
    key: Key,
)
    ensures
        ({
            let problems = override_problems(registry, id, texts);
            let known = exists|c: int|
                0 <= c < registry.len() && (#[trigger] registry[c]).id == id;
            &&& 0 <= i < texts.len() && parsed(texts[i]) is None ==> problems.contains(
                KeybindingProblem::InvalidKey { id, key: texts[i] },
            )
            &&& stands_twice(spelled_keys(texts), key) ==> problems.contains(
                KeybindingProblem::DuplicateKey { id, key: shown(key) },
            )
            &&& !known ==> problems.contains(KeybindingProblem::UnknownCommand { id })
            &&& known && (forall|t: int|
                0 <= t < texts.len() ==> parsed(#[trigger] texts[t]) is Some) && (forall|twice: Key|
                !#[trigger] stands_twice(spelled_keys(texts), twice)) ==> problems.len() == 0
        }),
{
    let first = unspelled(id, texts);
    let keys = spelled_keys(texts);
    let second = repetitions(id, keys);
    let problems = override_problems(registry, id, texts);
    lemma_unspelled(id, texts);
    lemma_duplicates(keys);
    let ids = command_ids(registry);
    if ids.contains(id) {
        let c = choose|c: int| 0 <= c < ids.len() && ids[c] == id;
        assert(registry[c].id == id);
    }
    if exists|c: int| 0 <= c < registry.len() && (#[trigger] registry[c]).id == id {
        let c = choose|c: int| 0 <= c < registry.len() && (#[trigger] registry[c]).id == id;
        assert(ids[c] == id);
    }
    if 0 <= i < texts.len() && parsed(texts[i]) is None {
        let problem = KeybindingProblem::InvalidKey { id, key: texts[i] };
        let k = choose|k: int| 0 <= k < first.len() && first[k] == problem;
        assert(problems[k] == problem);
    }
    if stands_twice(keys, key) {
        let found = duplicates(keys);
        assert(found.contains(key));
        let k = choose|k: int| 0 <= k < found.len() && found[k] == key;
        assert(problems[first.len() + k] == second[k]);
    }
    if !ids.contains(id) {
        assert(problems[problems.len() - 1] == (KeybindingProblem::UnknownCommand { id }));
    }
    if ids.contains(id) && (forall|t: int|
        0 <= t < texts.len() ==> parsed(#[trigger] texts[t]) is Some) && (forall|twice: Key|
        !#[trigger] stands_twice(keys, twice)) {
        if first.len() > 0 {
            assert(first[0] is InvalidKey);
            let text = first[0]->InvalidKey_key;
            let t = choose|t: int| 0 <= t < texts.len() && texts[t] == text;
            assert(parsed(texts[t]) is Some);
        }
        if duplicates(keys).len() > 0 {
            assert(duplicates(keys).contains(duplicates(keys)[0]));
            assert(stands_twice(keys, duplicates(keys)[0]));
        }
    }
}

/// The overrides of a table are reported one after another.
pub proof fn law_overrides_are_reported_in_order(
    registry: Seq<CommandModel>,
    overrides: Seq<(Seq<char>, Seq<Seq<char>>)>,
    id: Seq<char>,
    texts: Seq<Seq<char>>,
)
    ensures
        overrides_problems(registry, Seq::empty()).len() == 0,
        overrides_problems(registry, overrides.push((id, texts))) == overrides_problems(
            registry,
            overrides,
        ) + override_problems(with_overrides(registry, overrides), id, texts),
{
    assert(overrides.push((id, texts)).drop_last() =~= overrides);
}

/// A Command other than Quit that claims control and `c` is reported, and no
/// other.
pub proof fn law_the_emergency_key_is_reserved(registry: Seq<CommandModel>, entry: CommandModel)
    ensures
        ({
            let key = Key { code: KeyCode::Character('c'), ctrl: true, alt: false };
            &&& emergency_claims(Seq::empty()).len() == 0
            &&& entry.command != Command::Quit && entry.keys.contains(key) ==> emergency_claims(
                registry.push(entry),
            ) == emergency_claims(registry).push(
                KeybindingProblem::ReservedKey { id: entry.id, key: shown(key) },
            )
            &&& entry.command == Command::Quit || !entry.keys.contains(key) ==> emergency_claims(
                registry.push(entry),
            ) == emergency_claims(registry)
        }),
{
    assert(registry.push(entry).drop_last() =~= registry);
}

/// Whether two Commands claim a key in one part of the interface, the one
/// registered before the other.
pub open spec fn compete(
    registry: Seq<CommandModel>,
    i: int,
    j: int,
    scope: CommandScope,
    key: Key,
) -> bool {
    &&& 0 <= i < j < registry.len()
    &&& registry[i].scopes.contains(scope)
    &&& registry[j].scopes.contains(scope)
    &&& registry[i].keys.contains(key)
    &&& registry[j].keys.contains(key)
}

/// Whether a report names two Commands that compete, the earlier one first, and
/// what they compete for.
pub open spec fn names_competitors(
    registry: Seq<CommandModel>,
    problem: KeybindingProblem,
) -> bool {
    exists|i: int, j: int, scope: CommandScope, key: Key| #[trigger]
        compete(registry, i, j, scope, key) && problem == (KeybindingProblem::ConflictingKey {
            key: shown(key),
            first: registry[i].id,
            second: registry[j].id,
        })
}

spec fn all_name_competitors(registry: Seq<CommandModel>, problems: Seq<KeybindingProblem>) -> bool {
    forall|k: int| 0 <= k < problems.len() ==> names_competitors(registry, #[trigger] problems[k])
}

proof fn lemma_claimant(registry: Seq<CommandModel>, scope: CommandScope, key: Key, at: int)
    requires
        0 <= at < registry.len(),
        claims(registry[at], scope, key),
    ensures
        0 <= first_claimant(registry, scope, key) <= at,
        claims(registry[first_claimant(registry, scope, key)], scope, key),
    decreases registry.len(),
{
    if !claims(registry[0], scope, key) {
        let rest = registry.drop_first();
        assert(rest[at - 1] == registry[at]);
        lemma_claimant(rest, scope, key, at - 1);
        let found = first_claimant(rest, scope, key);
        assert(rest[found] == registry[found + 1]);
    }
}

proof fn lemma_over_keys(
    registry: Seq<CommandModel>,
    command: int,
    scope: CommandScope,
    count: nat,
    conflicts: Seq<KeybindingProblem>,
)
    requires
        0 <= command < registry.len(),
        registry[command].scopes.contains(scope),
        count <= registry[command].keys.len(),
        all_name_competitors(registry, conflicts),
    ensures
        all_name_competitors(
            registry,
            conflicts_over_keys(registry, command, scope, count, conflicts),
        ),
    decreases count,
{
    if count > 0 {
        lemma_over_keys(registry, command, scope, (count - 1) as nat, conflicts);
        let key = registry[command].keys[count - 1];
        assert(registry[command].keys.contains(key));
        lemma_claimant(registry, scope, key, command);
        let first = first_claimant(registry, scope, key);
        if registry[first].id != registry[command].id {
            assert(compete(registry, first, command, scope, key));
        }
    }
}

proof fn lemma_over_scopes(
    registry: Seq<CommandModel>,
    command: int,
    count: nat,
    conflicts: Seq<KeybindingProblem>,
)
    requires
        0 <= command < registry.len(),
        count <= registry[command].scopes.len(),
        all_name_competitors(registry, conflicts),
    ensures
        all_name_competitors(
            registry,
            conflicts_over_scopes(registry, command, count, conflicts),
        ),
    decreases count,
{
    if count > 0 {
        lemma_over_scopes(registry, command, (count - 1) as nat, conflicts);
        let scope = registry[command].scopes[count - 1];
        assert(registry[command].scopes.contains(scope));
        lemma_over_keys(
            registry,
            command,
            scope,
            registry[command].keys.len(),
            conflicts_over_scopes(registry, command, (count - 1) as nat, conflicts),
        );
    }
}

proof fn lemma_among(registry: Seq<CommandModel>, count: nat)
    requires
        count <= registry.len(),
    ensures
        all_name_competitors(registry, conflicts_among(registry, count)),
    decreases count,
{
    if count > 0 {
        lemma_among(registry, (count - 1) as nat);
        lemma_over_scopes(
            registry,
            count - 1,
            registry[count - 1].scopes.len(),
            conflicts_among(registry, (count - 1) as nat),
        );
    }
}

/// Every reported conflict is one: it names two Commands of one part of the
/// interface, the one registered earlier first, and the key that both claim.
pub proof fn law_a_reported_conflict_is_one(registry: Seq<CommandModel>, k: int)
    requires
        0 <= k < conflicts_in(registry).len(),
    ensures
        names_competitors(registry, conflicts_in(registry)[k]),
{
    lemma_among(registry, registry.len());
}

} // verus!
