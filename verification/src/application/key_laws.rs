//! What keys are called and what is wrong with bindings.

use vstd::prelude::*;

use super::key::{key_of, law_shown_key_reads_back, parsed, shown, Key, KeyCode, Named};
use super::keybinding::{problem_text, KeybindingProblem};
use super::resource_shell_controls::{
    collision, configured_controls, control_problems, prefix_problems, shared_keys,
    unspelled_controls, ControlsModel,
};
use super::command::{quittable, spelled_keys, Command, CommandModel};
use crate::text::decimal;

verus! {

/// A key by its code alone.
pub open spec fn bare_key(code: KeyCode) -> Key {
    Key { code, ctrl: false, alt: false }
}

/// Keys are called by their names, characters by themselves and the spacebar by
/// its name; modifiers stand in front, control first.
pub proof fn law_keys_are_called_by_their_names(c: char, number: u8, code: KeyCode)
    ensures
        shown(bare_key(KeyCode::Named(Named::Backspace))) == "backspace"@,
        shown(bare_key(KeyCode::Named(Named::Enter))) == "enter"@,
        shown(bare_key(KeyCode::Named(Named::Esc))) == "esc"@,
        shown(bare_key(KeyCode::Named(Named::Tab))) == "tab"@,
        shown(bare_key(KeyCode::Named(Named::BackTab))) == "shift+tab"@,
        shown(bare_key(KeyCode::Named(Named::Left))) == "left"@,
        shown(bare_key(KeyCode::Named(Named::Right))) == "right"@,
        shown(bare_key(KeyCode::Named(Named::Up))) == "up"@,
        shown(bare_key(KeyCode::Named(Named::Down))) == "down"@,
        shown(bare_key(KeyCode::Named(Named::Home))) == "home"@,
        shown(bare_key(KeyCode::Named(Named::End))) == "end"@,
        shown(bare_key(KeyCode::Named(Named::PageUp))) == "pageup"@,
        shown(bare_key(KeyCode::Named(Named::PageDown))) == "pagedown"@,
        shown(bare_key(KeyCode::Named(Named::Insert))) == "insert"@,
        shown(bare_key(KeyCode::Named(Named::Delete))) == "delete"@,
        shown(bare_key(KeyCode::Named(Named::Function(number)))) == "f"@ + decimal(number as nat),
        shown(bare_key(KeyCode::Character(' '))) == "space"@,
        c != ' ' ==> shown(bare_key(KeyCode::Character(c))) == seq![c],
        shown(Key { code, ctrl: true, alt: false }) == "ctrl+"@ + shown(bare_key(code)),
        shown(Key { code, ctrl: false, alt: true }) == "alt+"@ + shown(bare_key(code)),
        shown(Key { code, ctrl: true, alt: true }) == "ctrl+"@ + "alt+"@ + shown(bare_key(code)),
{
    let none = Seq::<char>::empty();
    assert forall|text: Seq<char>| #[trigger] (none + none + text) == text by {
        assert(none + none + text =~= text);
    }
    let name = shown(bare_key(code));
    assert("ctrl+"@ + none + super::key::code_text(code) =~= "ctrl+"@ + name);
    assert(none + "alt+"@ + super::key::code_text(code) =~= "alt+"@ + name);
    assert(none + none + super::key::code_text(code) =~= super::key::code_text(code));
    assert("ctrl+"@ + "alt+"@ + super::key::code_text(code) =~= "ctrl+"@ + "alt+"@ + name);
}

/// Each problem of a binding is reported in a sentence that names the Command
/// or control and the key.
pub proof fn law_binding_problems_are_named(
    id: Seq<char>,
    key: Seq<char>,
    first: Seq<char>,
    second: Seq<char>,
)
    ensures
        problem_text(KeybindingProblem::UnknownCommand { id })
            == "[keybindings] has no Command named \""@ + id + "\""@,
        problem_text(KeybindingProblem::InvalidKey { id, key }) == "[keybindings] \""@ + id
            + "\" has an unrecognised key \""@ + key + "\""@,
        problem_text(KeybindingProblem::DuplicateKey { id, key }) == "[keybindings] \""@ + id
            + "\" lists \""@ + key + "\" more than once"@,
        problem_text(KeybindingProblem::ConflictingKey { key, first, second })
            == "[keybindings] \""@ + key + "\" is bound to both \""@ + first + "\" and \""@ + second
            + "\", which can be invoked at the same time"@,
        problem_text(KeybindingProblem::ReservedKey { id, key }) == "[keybindings] \""@ + id
            + "\" cannot claim \""@ + key + "\": it always quits Tuivir"@,
        problem_text(KeybindingProblem::InvalidShellPrefix { key })
            == "[resource_shell] has an unrecognised Shell Prefix \""@ + key + "\""@,
        problem_text(KeybindingProblem::InvalidShellKey { id, key })
            == "[resource_shell.keybindings] \""@ + id + "\" has an unrecognised key \""@ + key
            + "\""@,
        problem_text(KeybindingProblem::UnknownShellKeybinding { id })
            == "[resource_shell.keybindings] has no Resource Shell control named \""@ + id + "\""@,
        problem_text(KeybindingProblem::EmptyShellKeybinding { id })
            == "[resource_shell.keybindings] \""@ + id + "\" must bind at least one key"@,
        problem_text(KeybindingProblem::DuplicateShellKey { id, key })
            == "[resource_shell.keybindings] \""@ + id + "\" lists \""@ + key
            + "\" more than once"@,
        problem_text(KeybindingProblem::ConflictingShellKey { key, first, second })
            == "[resource_shell.keybindings] \""@ + key + "\" is bound to both \""@ + first
            + "\" and \""@ + second + "\""@,
        problem_text(KeybindingProblem::ShellPrefixCollision { id, key })
            == "[resource_shell] Shell Prefix \""@ + key + "\" collides with \""@ + id + "\""@,
{
}

/// A session's controls are control and `t`, then `q` to return and `z` to
/// zoom, until they are configured: the prefix by a key's name, each control by
/// the names of its keys, and the control to return keeps a key in any case.
pub proof fn law_controls_are_what_is_configured(
    prefix: Seq<char>,
    texts: Seq<Seq<char>>,
    id: Seq<char>,
)
    ensures
        configured_controls(None, Seq::empty()) == (ControlsModel {
            prefix: Key { code: KeyCode::Character('t'), ctrl: true, alt: false },
            focus_tuivir: seq![bare_key(KeyCode::Character('q'))],
            toggle_zoom: seq![bare_key(KeyCode::Character('z'))],
        }),
        parsed(prefix) matches Some(key) ==> configured_controls(Some(prefix), Seq::empty()) == (
        ControlsModel {
            prefix: key,
            focus_tuivir: seq![bare_key(KeyCode::Character('q'))],
            toggle_zoom: seq![bare_key(KeyCode::Character('z'))],
        }) && prefix_problems(Some(prefix)).len() == 0,
        parsed(prefix) is None ==> prefix_problems(Some(prefix)) == seq![
            KeybindingProblem::InvalidShellPrefix { key: prefix },
        ],
        ({
            let keys = spelled_keys(texts);
            let zoomed = configured_controls(None, seq![("toggle_zoom"@, texts)]);
            let focused = configured_controls(None, seq![("focus_tuivir"@, texts)]);
            &&& zoomed.toggle_zoom == keys
            &&& zoomed.focus_tuivir == seq![bare_key(KeyCode::Character('q'))]
            &&& keys.len() > 0 ==> focused.focus_tuivir == keys
            &&& keys.len() == 0 ==> focused.focus_tuivir == seq![
                bare_key(KeyCode::Character('q')),
            ]
            &&& focused.toggle_zoom == seq![bare_key(KeyCode::Character('z'))]
        }),
        id != "focus_tuivir"@ && id != "toggle_zoom"@ ==> control_problems(id, Seq::empty())
            == seq![KeybindingProblem::UnknownShellKeybinding { id }],
        control_problems("focus_tuivir"@, Seq::empty()) == seq![
            KeybindingProblem::EmptyShellKeybinding { id: "focus_tuivir"@ },
        ],
        control_problems("toggle_zoom"@, Seq::empty()).len() == 0,
{
    reveal_with_fuel(super::resource_shell_controls::with_controls, 2);
    reveal_with_fuel(super::resource_shell_controls::unspelled_controls, 1);
    reveal_with_fuel(super::keybinding::duplicates, 1);
    reveal_with_fuel(spelled_keys, 1);
    reveal_strlit("focus_tuivir");
    reveal_strlit("toggle_zoom");
    assert("focus_tuivir"@.len() != "toggle_zoom"@.len());
    let none: Seq<Seq<char>> = Seq::empty();
    assert(spelled_keys(none) =~= Seq::<Key>::empty());
    assert(seq![("toggle_zoom"@, texts)].drop_last() =~= Seq::<(Seq<char>, Seq<Seq<char>>)>::empty());
    assert(seq![("focus_tuivir"@, texts)].drop_last() =~= Seq::<
        (Seq<char>, Seq<Seq<char>>),
    >::empty());
    assert(super::keybinding::duplicates(Seq::<Key>::empty()) =~= Seq::<Key>::empty());
    assert(super::resource_shell_controls::repeated_controls(id, Seq::empty()) =~= Seq::<
        KeybindingProblem,
    >::empty());
}

/// The keys of a list are those that its texts spell, in order.
pub proof fn law_a_list_spells_its_keys(texts: Seq<Seq<char>>, text: Seq<char>)
    ensures
        spelled_keys(Seq::empty()) == Seq::<Key>::empty(),
        parsed(text) matches Some(key) ==> spelled_keys(texts.push(text)) == spelled_keys(
            texts,
        ).push(key),
        parsed(text) is None ==> spelled_keys(texts.push(text)) == spelled_keys(texts),
{
    assert(texts.push(text).drop_last() =~= texts);
}

/// Modifiers stand in front of a key in any order, each once at most, and shift
/// only in front of the tab.
pub proof fn law_modifiers_stand_in_front(c: char)
    requires
        c != '+',
    ensures
        ({
            let one = seq![c];
            let code = KeyCode::Character(c);
            &&& parsed("ctrl+"@ + one) == Some(Key { code, ctrl: true, alt: false })
            &&& parsed("alt+"@ + one) == Some(Key { code, ctrl: false, alt: true })
            &&& parsed("alt+"@ + ("ctrl+"@ + one)) == Some(Key { code, ctrl: true, alt: true })
            &&& parsed("ctrl+"@ + ("alt+"@ + one)) == Some(Key { code, ctrl: true, alt: true })
            &&& parsed("ctrl+"@ + ("ctrl+"@ + one)) is None
            &&& parsed("alt+"@ + ("alt+"@ + one)) is None
            &&& parsed("shift+"@ + one) is None
            &&& parsed("shift+"@ + "tab"@) == Some(bare_key(KeyCode::Named(Named::BackTab)))
        }),
{
    reveal_strlit("ctrl+");
    reveal_strlit("alt+");
    reveal_strlit("shift+");
    reveal_strlit("tab");
    reveal_with_fuel(key_of, 3);
    let one = seq![c];
    lemma_front("ctrl+"@, one);
    lemma_front("alt+"@, one);
    lemma_front("shift+"@, one);
    lemma_front("ctrl+"@, "ctrl+"@ + one);
    lemma_front("ctrl+"@, "alt+"@ + one);
    lemma_front("alt+"@, "alt+"@ + one);
    lemma_front("alt+"@, "ctrl+"@ + one);
    lemma_front("shift+"@, "tab"@);
    assert("alt+"@[0] != "ctrl+"@[0]);
    assert(("alt+"@ + one)[0] == 'a');
    assert(("alt+"@ + ("alt+"@ + one))[0] == 'a');
    assert(("alt+"@ + ("ctrl+"@ + one))[0] == 'a');
    assert(("shift+"@ + one)[0] == 's');
    assert(("shift+"@ + "tab"@)[0] == 's');
    assert forall|text: Seq<char>| text.len() >= 5 && text[0] != 'c' implies #[trigger] text.take(5)
        != "ctrl+"@ by {
        assert(text.take(5)[0] == text[0]);
    }
    assert forall|text: Seq<char>| text.len() >= 4 && text[0] != 'a' implies #[trigger] text.take(4)
        != "alt+"@ by {
        assert(text.take(4)[0] == text[0]);
    }
    law_shown_key_reads_back(bare_key(KeyCode::Named(Named::Tab)));
    law_keys_are_called_by_their_names(c, 1, KeyCode::Named(Named::Tab));
    assert("tab"@[0] == 't');
    assert(super::key::code_of("tab"@) == Some(KeyCode::Named(Named::Tab)));
}

proof fn lemma_front(front: Seq<char>, rest: Seq<char>)
    ensures
        (front + rest).take(front.len() as int) == front,
        (front + rest).skip(front.len() as int) == rest,
{
    assert((front + rest).take(front.len() as int) =~= front);
    assert((front + rest).skip(front.len() as int) =~= rest);
}

/// A control that the prefix would hide is reported, and so is each key that
/// both controls claim.
pub proof fn law_unreachable_controls_are_reported(
    id: Seq<char>,
    keys: Seq<Key>,
    prefix: Key,
    zoom: Seq<Key>,
    key: Key,
)
    ensures
        keys.contains(prefix) ==> collision(id, keys, prefix) == seq![
            KeybindingProblem::ShellPrefixCollision { id, key: shown(prefix) },
        ],
        !keys.contains(prefix) ==> collision(id, keys, prefix).len() == 0,
        shared_keys(Seq::empty(), zoom).len() == 0,
        zoom.contains(key) ==> shared_keys(keys.push(key), zoom) == shared_keys(keys, zoom).push(
            KeybindingProblem::ConflictingShellKey {
                key: shown(key),
                first: "focus_tuivir"@,
                second: "toggle_zoom"@,
            },
        ),
        !zoom.contains(key) ==> shared_keys(keys.push(key), zoom) == shared_keys(keys, zoom),
{
    assert(keys.push(key).drop_last() =~= keys);
}

/// A control's texts that spell no key are reported in order, each as it is
/// spelled.
pub proof fn law_misspelled_controls_are_reported(
    id: Seq<char>,
    texts: Seq<Seq<char>>,
    text: Seq<char>,
)
    ensures
        unspelled_controls(id, Seq::empty()).len() == 0,
        parsed(text) is Some ==> unspelled_controls(id, texts.push(text)) == unspelled_controls(
            id,
            texts,
        ),
        parsed(text) is None ==> unspelled_controls(id, texts.push(text)) == unspelled_controls(
            id,
            texts,
        ).push(KeybindingProblem::InvalidShellKey { id, key: text }),
{
    assert(texts.push(text).drop_last() =~= texts);
}

/// Quit keeps its keys and has control and `c` behind them, or where the user
/// put it; no other Command is given it.
pub proof fn law_quit_keeps_its_keys(entry: CommandModel)
    ensures
        ({
            let key = Key { code: KeyCode::Character('c'), ctrl: true, alt: false };
            &&& entry.command != Command::Quit ==> quittable(entry) == entry
            &&& entry.command == Command::Quit && entry.keys.contains(key) ==> quittable(entry)
                == entry
            &&& entry.command == Command::Quit && !entry.keys.contains(key) ==> quittable(entry)
                == (CommandModel { keys: entry.keys.push(key), ..entry })
        }),
{
}

} // verus!
