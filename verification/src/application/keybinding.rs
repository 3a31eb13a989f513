//! Why application keybinding policy refuses a set of overrides.

use vstd::prelude::*;
use vstd::string::*;

use super::key::Key;
use crate::text::same_text;

verus! {

/// One reason application keybinding policy refused a set of overrides.
///
/// Validation is atomic: every discoverable diagnostic is collected and no
/// part of an invalid override set is applied.
#[derive(Debug, PartialEq, Eq)]
pub enum KeybindingError {
    /// The Shell Prefix is not a key Tuivir recognizes.
    InvalidShellPrefix { key: String },
    /// A Resource Shell Session control names an unrecognized key.
    InvalidShellKey { id: String, key: String },
    /// A Resource Shell Session control is not one Tuivir recognizes.
    UnknownShellKeybinding { id: String },
    /// The focus control must always let the user return to Tuivir.
    EmptyShellKeybinding { id: String },
    /// A Resource Shell Session control lists one key more than once.
    DuplicateShellKey { id: String, key: String },
    /// Two Resource Shell Session controls claim the same key.
    ConflictingShellKey { key: String, first: String, second: String },
    /// A Shell Prefix would make a Resource Shell Session control unreachable.
    ShellPrefixCollision { id: String, key: String },
    /// A keybinding names a Command Tuivir does not register.
    UnknownCommand { id: String },
    /// A key string Tuivir cannot represent.
    InvalidKey { id: String, key: String },
    /// One Command lists the same key twice, however it was spelled.
    DuplicateKey { id: String, key: String },
    /// Two Commands that can be invoked at the same time claim one key.
    ///
    /// `first` is the Command registered earlier; neither is given priority.
    ConflictingKey { key: String, first: String, second: String },
    /// A Command other than Quit tried to claim the emergency `ctrl+c`.
    ReservedKey { id: String, key: String },
}

/// What a [`KeybindingError`] reports.
#[verifier::ext_equal]
pub enum KeybindingProblem {
    InvalidShellPrefix { key: Seq<char> },
    InvalidShellKey { id: Seq<char>, key: Seq<char> },
    UnknownShellKeybinding { id: Seq<char> },
    EmptyShellKeybinding { id: Seq<char> },
    DuplicateShellKey { id: Seq<char>, key: Seq<char> },
    ConflictingShellKey { key: Seq<char>, first: Seq<char>, second: Seq<char> },
    ShellPrefixCollision { id: Seq<char>, key: Seq<char> },
    UnknownCommand { id: Seq<char> },
    InvalidKey { id: Seq<char>, key: Seq<char> },
    DuplicateKey { id: Seq<char>, key: Seq<char> },
    ConflictingKey { key: Seq<char>, first: Seq<char>, second: Seq<char> },
    ReservedKey { id: Seq<char>, key: Seq<char> },
}

impl View for KeybindingError {
    type V = KeybindingProblem;

    open spec fn view(&self) -> KeybindingProblem {
        match self {
            KeybindingError::InvalidShellPrefix { key } => KeybindingProblem::InvalidShellPrefix { key: key@ },
            KeybindingError::InvalidShellKey { id, key } => KeybindingProblem::InvalidShellKey { id: id@, key: key@ },
            KeybindingError::UnknownShellKeybinding { id } => KeybindingProblem::UnknownShellKeybinding { id: id@ },
            KeybindingError::EmptyShellKeybinding { id } => KeybindingProblem::EmptyShellKeybinding { id: id@ },
            KeybindingError::DuplicateShellKey { id, key } => KeybindingProblem::DuplicateShellKey { id: id@, key: key@ },
            KeybindingError::ConflictingShellKey { key, first, second } => KeybindingProblem::ConflictingShellKey { key: key@, first: first@, second: second@ },
            KeybindingError::ShellPrefixCollision { id, key } => KeybindingProblem::ShellPrefixCollision { id: id@, key: key@ },
            KeybindingError::UnknownCommand { id } => KeybindingProblem::UnknownCommand { id: id@ },
            KeybindingError::InvalidKey { id, key } => KeybindingProblem::InvalidKey { id: id@, key: key@ },
            KeybindingError::DuplicateKey { id, key } => KeybindingProblem::DuplicateKey { id: id@, key: key@ },
            KeybindingError::ConflictingKey { key, first, second } => KeybindingProblem::ConflictingKey { key: key@, first: first@, second: second@ },
            KeybindingError::ReservedKey { id, key } => KeybindingProblem::ReservedKey { id: id@, key: key@ },
        }
    }
}

/// The sentence that reports a problem to the user.
pub open spec fn problem_text(problem: KeybindingProblem) -> Seq<char> {
    match problem {
        KeybindingProblem::InvalidShellPrefix { key } => {
            "[resource_shell] has an unrecognised Shell Prefix \""@ + key + "\""@
        },
        KeybindingProblem::InvalidShellKey { id, key } => {
            "[resource_shell.keybindings] \""@ + id + "\" has an unrecognised key \""@ + key + "\""@
        },
        KeybindingProblem::UnknownShellKeybinding { id } => {
            "[resource_shell.keybindings] has no Resource Shell control named \""@ + id + "\""@
        },
        KeybindingProblem::EmptyShellKeybinding { id } => {
            "[resource_shell.keybindings] \""@ + id + "\" must bind at least one key"@
        },
        KeybindingProblem::DuplicateShellKey { id, key } => {
            "[resource_shell.keybindings] \""@ + id + "\" lists \""@ + key + "\" more than once"@
        },
        KeybindingProblem::ConflictingShellKey { key, first, second } => {
            "[resource_shell.keybindings] \""@ + key + "\" is bound to both \""@ + first + "\" and \""@ + second + "\""@
        },
        KeybindingProblem::ShellPrefixCollision { id, key } => {
            "[resource_shell] Shell Prefix \""@ + key + "\" collides with \""@ + id + "\""@
        },
        KeybindingProblem::UnknownCommand { id } => {
            "[keybindings] has no Command named \""@ + id + "\""@
        },
        KeybindingProblem::InvalidKey { id, key } => {
            "[keybindings] \""@ + id + "\" has an unrecognised key \""@ + key + "\""@
        },
        KeybindingProblem::DuplicateKey { id, key } => {
            "[keybindings] \""@ + id + "\" lists \""@ + key + "\" more than once"@
        },
        KeybindingProblem::ConflictingKey { key, first, second } => {
            "[keybindings] \""@ + key + "\" is bound to both \""@ + first + "\" and \""@ + second + "\", which can be invoked at the same time"@
        },
        KeybindingProblem::ReservedKey { id, key } => {
            "[keybindings] \""@ + id + "\" cannot claim \""@ + key + "\": it always quits Tuivir"@
        },
    }
}

impl KeybindingError {
    /// The sentence that reports the error to the user.
    pub fn to_string(&self) -> (text: String)
        ensures
            text@ == problem_text(self@),
    {
        let mut text = String::new();
        match self {
            KeybindingError::InvalidShellPrefix { key } => {
                text.append("[resource_shell] has an unrecognised Shell Prefix \"");
                text.append(key.as_str());
                text.append("\"");
            },
            KeybindingError::InvalidShellKey { id, key } => {
                text.append("[resource_shell.keybindings] \"");
                text.append(id.as_str());
                text.append("\" has an unrecognised key \"");
                text.append(key.as_str());
                text.append("\"");
            },
            KeybindingError::UnknownShellKeybinding { id } => {
                text.append("[resource_shell.keybindings] has no Resource Shell control named \"");
                text.append(id.as_str());
                text.append("\"");
            },
            KeybindingError::EmptyShellKeybinding { id } => {
                text.append("[resource_shell.keybindings] \"");
                text.append(id.as_str());
                text.append("\" must bind at least one key");
            },
            KeybindingError::DuplicateShellKey { id, key } => {
                text.append("[resource_shell.keybindings] \"");
                text.append(id.as_str());
                text.append("\" lists \"");
                text.append(key.as_str());
                text.append("\" more than once");
            },
            KeybindingError::ConflictingShellKey { key, first, second } => {
                text.append("[resource_shell.keybindings] \"");
                text.append(key.as_str());
                text.append("\" is bound to both \"");
                text.append(first.as_str());
                text.append("\" and \"");
                text.append(second.as_str());
                text.append("\"");
            },
            KeybindingError::ShellPrefixCollision { id, key } => {
                text.append("[resource_shell] Shell Prefix \"");
                text.append(key.as_str());
                text.append("\" collides with \"");
                text.append(id.as_str());
                text.append("\"");
            },
            KeybindingError::UnknownCommand { id } => {
                text.append("[keybindings] has no Command named \"");
                text.append(id.as_str());
                text.append("\"");
            },
            KeybindingError::InvalidKey { id, key } => {
                text.append("[keybindings] \"");
                text.append(id.as_str());
                text.append("\" has an unrecognised key \"");
                text.append(key.as_str());
                text.append("\"");
            },
            KeybindingError::DuplicateKey { id, key } => {
                text.append("[keybindings] \"");
                text.append(id.as_str());
                text.append("\" lists \"");
                text.append(key.as_str());
                text.append("\" more than once");
            },
            KeybindingError::ConflictingKey { key, first, second } => {
                text.append("[keybindings] \"");
                text.append(key.as_str());
                text.append("\" is bound to both \"");
                text.append(first.as_str());
                text.append("\" and \"");
                text.append(second.as_str());
                text.append("\", which can be invoked at the same time");
            },
            KeybindingError::ReservedKey { id, key } => {
                text.append("[keybindings] \"");
                text.append(id.as_str());
                text.append("\" cannot claim \"");
                text.append(key.as_str());
                text.append("\": it always quits Tuivir");
            },
        }
        assert(text@ =~= problem_text(self@));
        text
    }

    /// Whether two errors report the same problem.
    pub fn same(&self, other: &KeybindingError) -> (same: bool)
        ensures
            same == (self@ == other@),
    {
        match (self, other) {
            (
                KeybindingError::InvalidShellPrefix { key: a0 },
                KeybindingError::InvalidShellPrefix { key: b0 },
            ) => same_text(a0.as_str(), b0.as_str()),
            (
                KeybindingError::InvalidShellKey { id: a0, key: a1 },
                KeybindingError::InvalidShellKey { id: b0, key: b1 },
            ) => same_text(a0.as_str(), b0.as_str()) && same_text(a1.as_str(), b1.as_str()),
            (
                KeybindingError::UnknownShellKeybinding { id: a0 },
                KeybindingError::UnknownShellKeybinding { id: b0 },
            ) => same_text(a0.as_str(), b0.as_str()),
            (
                KeybindingError::EmptyShellKeybinding { id: a0 },
                KeybindingError::EmptyShellKeybinding { id: b0 },
            ) => same_text(a0.as_str(), b0.as_str()),
            (
                KeybindingError::DuplicateShellKey { id: a0, key: a1 },
                KeybindingError::DuplicateShellKey { id: b0, key: b1 },
            ) => same_text(a0.as_str(), b0.as_str()) && same_text(a1.as_str(), b1.as_str()),
            (
                KeybindingError::ConflictingShellKey { key: a0, first: a1, second: a2 },
                KeybindingError::ConflictingShellKey { key: b0, first: b1, second: b2 },
            ) => same_text(a0.as_str(), b0.as_str()) && same_text(a1.as_str(), b1.as_str()) && same_text(a2.as_str(), b2.as_str()),
            (
                KeybindingError::ShellPrefixCollision { id: a0, key: a1 },
                KeybindingError::ShellPrefixCollision { id: b0, key: b1 },
            ) => same_text(a0.as_str(), b0.as_str()) && same_text(a1.as_str(), b1.as_str()),
            (
                KeybindingError::UnknownCommand { id: a0 },
                KeybindingError::UnknownCommand { id: b0 },
            ) => same_text(a0.as_str(), b0.as_str()),
            (
                KeybindingError::InvalidKey { id: a0, key: a1 },
                KeybindingError::InvalidKey { id: b0, key: b1 },
            ) => same_text(a0.as_str(), b0.as_str()) && same_text(a1.as_str(), b1.as_str()),
            (
                KeybindingError::DuplicateKey { id: a0, key: a1 },
                KeybindingError::DuplicateKey { id: b0, key: b1 },
            ) => same_text(a0.as_str(), b0.as_str()) && same_text(a1.as_str(), b1.as_str()),
            (
                KeybindingError::ConflictingKey { key: a0, first: a1, second: a2 },
                KeybindingError::ConflictingKey { key: b0, first: b1, second: b2 },
            ) => same_text(a0.as_str(), b0.as_str()) && same_text(a1.as_str(), b1.as_str()) && same_text(a2.as_str(), b2.as_str()),
            (
                KeybindingError::ReservedKey { id: a0, key: a1 },
                KeybindingError::ReservedKey { id: b0, key: b1 },
            ) => same_text(a0.as_str(), b0.as_str()) && same_text(a1.as_str(), b1.as_str()),
            _ => false,
        }
    }
}

/// The keys that a list names more than once, each reported once and in the
/// order in which the repetition is met.
pub open spec fn duplicates(keys: Seq<Key>) -> Seq<Key>
    decreases keys.len(),
{
    if keys.len() == 0 {
        Seq::empty()
    } else {
        let earlier = duplicates(keys.drop_last());
        if keys.drop_last().contains(keys.last()) && !earlier.contains(keys.last()) {
            earlier.push(keys.last())
        } else {
            earlier
        }
    }
}

/// Whether a list of keys holds a key.
pub fn contains_key(keys: &Vec<Key>, key: Key) -> (found: bool)
    ensures
        found == keys@.contains(key),
{
    let mut i: usize = 0;
    while i < keys.len()
        invariant
            i <= keys.len(),
            forall|j: int| 0 <= j < i ==> keys@[j] != key,
        decreases keys.len() - i,
    {
        if keys[i] == key {
            return true;
        }
        i = i + 1;
    }
    false
}

/// The keys listed more than once.
///
/// Keys are compared after parsing, so two spellings of one key are the
/// duplicate they actually are.
pub fn duplicate_keys(keys: &Vec<Key>) -> (repeated: Vec<Key>)
    ensures
        repeated@ == duplicates(keys@),
{
    let mut seen: Vec<Key> = Vec::new();
    let mut repeated: Vec<Key> = Vec::new();
    let mut i: usize = 0;
    while i < keys.len()
        invariant
            i <= keys.len(),
            repeated@ == duplicates(keys@.take(i as int)),
            forall|key: Key| #[trigger] seen@.contains(key) <==> keys@.take(i as int).contains(key),
        decreases keys.len() - i,
    {
        let key = keys[i];
        let ghost before = keys@.take(i as int);
        let ghost seen_before = seen@;
        proof {
            assert(keys@.take(i + 1).drop_last() =~= before);
            assert(keys@.take(i + 1) =~= before.push(key));
        }
        if contains_key(&seen, key) {
            if !contains_key(&repeated, key) {
                repeated.push(key);
            }
        } else {
            seen.push(key);
        }
        i = i + 1;
        proof {
            assert forall|other: Key| #[trigger]
                seen@.contains(other) <==> keys@.take(i as int).contains(other) by {
                assert(before.push(key).contains(other) <==> before.contains(other) || other
                    == key) by {
                    if before.contains(other) {
                        let j = choose|j: int| 0 <= j < before.len() && before[j] == other;
                        assert(before.push(key)[j] == other);
                    }
                    assert(before.push(key)[before.len() as int] == key);
                }
                if seen@ == seen_before.push(key) {
                    if seen_before.contains(other) {
                        let j = choose|j: int|
                            0 <= j < seen_before.len() && seen_before[j] == other;
                        assert(seen@[j] == other);
                    }
                    assert(seen@[seen_before.len() as int] == key);
                }
            }
        }
    }
    assert(keys@.take(i as int) =~= keys@);
    repeated
}

/// A list reports duplicates exactly when it names some key twice.
pub proof fn law_duplicates_empty_iff_distinct(keys: Seq<Key>)
    ensures
        duplicates(keys).len() == 0 <==> keys.no_duplicates(),
        forall|key: Key| #[trigger] duplicates(keys).contains(key) ==> keys.contains(key),
    decreases keys.len(),
{
    if keys.len() > 0 {
        let shorter = keys.drop_last();
        law_duplicates_empty_iff_distinct(shorter);
        assert forall|key: Key| #[trigger] duplicates(keys).contains(key) implies keys.contains(key) by {
            let j = choose|j: int| 0 <= j < duplicates(keys).len() && duplicates(keys)[j] == key;
            if j < duplicates(shorter).len() {
                assert(duplicates(shorter)[j] == key);
                assert(duplicates(shorter).contains(key));
                let i = choose|i: int| 0 <= i < shorter.len() && shorter[i] == key;
                assert(keys[i] == key);
            } else {
                assert(keys[keys.len() - 1] == key);
            }
        }
        if keys.no_duplicates() {
            assert forall|i: int, j: int|
                0 <= i < shorter.len() && 0 <= j < shorter.len() && i != j implies shorter[i]
                != shorter[j] by {
                assert(keys[i] != keys[j]);
            }
            if shorter.contains(keys.last()) {
                let i = choose|i: int| 0 <= i < shorter.len() && shorter[i] == keys.last();
                assert(keys[i] == keys[keys.len() - 1]);
            }
        } else if duplicates(keys).len() == 0 {
            assert(duplicates(shorter).len() == 0);
            let (i, j) = choose|i: int, j: int|
                0 <= i < keys.len() && 0 <= j < keys.len() && i != j && keys[i] == keys[j];
            if i < shorter.len() && j < shorter.len() {
                assert(shorter[i] == shorter[j]);
            } else if i < shorter.len() {
                assert(shorter[i] == keys.last());
            } else {
                assert(shorter[j] == keys.last());
            }
        }
    }
}

} // verus!
