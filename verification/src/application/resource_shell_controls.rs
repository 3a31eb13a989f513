//! The terminal controls that Tuivir keeps for itself inside a Resource Shell
//! Session.

use vstd::prelude::*;
use vstd::string::*;

use super::command::{overrides_view, spelled_keys};
use super::key::{parsed, shown, Key, KeyCode};
use super::keybinding::{
    contains_key, duplicate_keys, duplicates, KeybindingError, KeybindingProblem,
};
use crate::text::{opt_view, same_text, views};

verus! {

/// Effective terminal controls owned by Tuivir while a Resource Shell Session
/// has keyboard focus.
#[derive(Debug, PartialEq, Eq)]
pub struct ResourceShellControls {
    prefix: Key,
    focus_tuivir: Vec<Key>,
    toggle_zoom: Vec<Key>,
}

/// What [`ResourceShellControls`] bind.
#[verifier::ext_equal]
pub struct ControlsModel {
    pub prefix: Key,
    pub focus_tuivir: Seq<Key>,
    pub toggle_zoom: Seq<Key>,
}

impl View for ResourceShellControls {
    type V = ControlsModel;

    closed spec fn view(&self) -> ControlsModel {
        ControlsModel {
            prefix: self.prefix,
            focus_tuivir: self.focus_tuivir@,
            toggle_zoom: self.toggle_zoom@,
        }
    }
}

/// The compiled controls: `ctrl+t`, then `q` to return and `z` to zoom.
pub open spec fn default_controls() -> ControlsModel {
    ControlsModel {
        prefix: Key { code: KeyCode::Character('t'), ctrl: true, alt: false },
        focus_tuivir: seq![Key { code: KeyCode::Character('q'), ctrl: false, alt: false }],
        toggle_zoom: seq![Key { code: KeyCode::Character('z'), ctrl: false, alt: false }],
    }
}

/// A report for each text of a control that spells no key.
pub open spec fn unspelled_controls(id: Seq<char>, texts: Seq<Seq<char>>) -> Seq<KeybindingProblem>
    decreases texts.len(),
{
    if texts.len() == 0 {
        Seq::empty()
    } else {
        let earlier = unspelled_controls(id, texts.drop_last());
        match parsed(texts.last()) {
            Some(_) => earlier,
            None => earlier.push(KeybindingProblem::InvalidShellKey { id, key: texts.last() }),
        }
    }
}

/// A report for each key that a control lists more than once.
pub open spec fn repeated_controls(id: Seq<char>, keys: Seq<Key>) -> Seq<KeybindingProblem> {
    duplicates(keys).map_values(
        |key: Key| KeybindingProblem::DuplicateShellKey { id, key: shown(key) },
    )
}

/// The controls after one of them was configured. The focus control must
/// always let the user return to Tuivir, so an empty list leaves it as it is.
pub open spec fn with_control(
    controls: ControlsModel,
    id: Seq<char>,
    keys: Seq<Key>,
) -> ControlsModel {
    if id == "focus_tuivir"@ {
        if keys.len() == 0 {
            controls
        } else {
            ControlsModel { focus_tuivir: keys, ..controls }
        }
    } else if id == "toggle_zoom"@ {
        ControlsModel { toggle_zoom: keys, ..controls }
    } else {
        controls
    }
}

/// Everything wrong with one configured control.
pub open spec fn control_problems(id: Seq<char>, texts: Seq<Seq<char>>) -> Seq<KeybindingProblem> {
    unspelled_controls(id, texts) + repeated_controls(id, spelled_keys(texts)) + (if id
        == "focus_tuivir"@ {
        if spelled_keys(texts).len() == 0 {
            seq![KeybindingProblem::EmptyShellKeybinding { id }]
        } else {
            Seq::empty()
        }
    } else if id == "toggle_zoom"@ {
        Seq::empty()
    } else {
        seq![KeybindingProblem::UnknownShellKeybinding { id }]
    })
}

pub open spec fn with_controls(
    controls: ControlsModel,
    bindings: Seq<(Seq<char>, Seq<Seq<char>>)>,
) -> ControlsModel
    decreases bindings.len(),
{
    if bindings.len() == 0 {
        controls
    } else {
        with_control(
            with_controls(controls, bindings.drop_last()),
            bindings.last().0,
            spelled_keys(bindings.last().1),
        )
    }
}

pub open spec fn controls_problems(
    bindings: Seq<(Seq<char>, Seq<Seq<char>>)>,
) -> Seq<KeybindingProblem>
    decreases bindings.len(),
{
    if bindings.len() == 0 {
        Seq::empty()
    } else {
        controls_problems(bindings.drop_last()) + control_problems(
            bindings.last().0,
            bindings.last().1,
        )
    }
}

/// A control that the prefix itself would make unreachable.
pub open spec fn collision(id: Seq<char>, keys: Seq<Key>, prefix: Key) -> Seq<KeybindingProblem> {
    if keys.contains(prefix) {
        seq![KeybindingProblem::ShellPrefixCollision { id, key: shown(prefix) }]
    } else {
        Seq::empty()
    }
}

/// The keys that both controls claim.
pub open spec fn shared_keys(focus: Seq<Key>, zoom: Seq<Key>) -> Seq<KeybindingProblem>
    decreases focus.len(),
{
    if focus.len() == 0 {
        Seq::empty()
    } else {
        let earlier = shared_keys(focus.drop_last(), zoom);
        if zoom.contains(focus.last()) {
            earlier.push(
                KeybindingProblem::ConflictingShellKey {
                    key: shown(focus.last()),
                    first: "focus_tuivir"@,
                    second: "toggle_zoom"@,
                },
            )
        } else {
            earlier
        }
    }
}

/// The controls with a configured prefix, where it spells a key.
pub open spec fn with_prefix(controls: ControlsModel, prefix: Option<Seq<char>>) -> ControlsModel {
    match prefix {
        Some(text) => match parsed(text) {
            Some(key) => ControlsModel { prefix: key, ..controls },
            None => controls,
        },
        None => controls,
    }
}

pub open spec fn prefix_problems(prefix: Option<Seq<char>>) -> Seq<KeybindingProblem> {
    match prefix {
        Some(text) => match parsed(text) {
            Some(_) => Seq::empty(),
            None => seq![KeybindingProblem::InvalidShellPrefix { key: text }],
        },
        None => Seq::empty(),
    }
}

/// The controls that a configuration asks for, whether or not it is valid.
pub open spec fn configured_controls(
    prefix: Option<Seq<char>>,
    bindings: Seq<(Seq<char>, Seq<Seq<char>>)>,
) -> ControlsModel {
    with_controls(with_prefix(default_controls(), prefix), bindings)
}

/// What is wrong with controls taken together.
pub open spec fn controls_conflicts(controls: ControlsModel) -> Seq<KeybindingProblem> {
    collision("focus_tuivir"@, controls.focus_tuivir, controls.prefix) + collision(
        "toggle_zoom"@,
        controls.toggle_zoom,
        controls.prefix,
    ) + shared_keys(controls.focus_tuivir, controls.toggle_zoom)
}

/// Every problem a configuration of the controls has, in the order reported.
pub open spec fn shell_configuration_problems(
    prefix: Option<Seq<char>>,
    bindings: Seq<(Seq<char>, Seq<Seq<char>>)>,
) -> Seq<KeybindingProblem> {
    prefix_problems(prefix) + controls_problems(bindings) + controls_conflicts(
        configured_controls(prefix, bindings),
    )
}

impl Default for ResourceShellControls {
    fn default() -> (controls: Self)
        ensures
            controls@ == default_controls(),
    {
        let mut focus: Vec<Key> = Vec::new();
        focus.push(Key::character('q'));
        let mut zoom: Vec<Key> = Vec::new();
        zoom.push(Key::character('z'));
        let controls = ResourceShellControls::new(Key::character('t').with_ctrl(), focus, zoom);
        assert(controls@ =~= default_controls());
        controls
    }
}

/// Puts one more problem behind those already found.
fn report(errors: &mut Vec<KeybindingError>, error: KeybindingError)
    ensures
        views(final(errors)@) == views(old(errors)@).push(error@),
{
    errors.push(error);
    assert(views(errors@) =~= views(old(errors)@).push(error@));
}

/// Reads the keys of one control, reporting each text that spells none.
fn spell_controls(id: &String, texts: &Vec<String>, errors: &mut Vec<KeybindingError>) -> (keys:
    Vec<Key>)
    ensures
        keys@ == spelled_keys(views(texts@)),
        views(final(errors)@) == views(old(errors)@) + unspelled_controls(id@, views(texts@)),
{
    let mut keys: Vec<Key> = Vec::new();
    let mut i: usize = 0;
    let ghost all = views(texts@);
    assert(views(errors@) + Seq::<KeybindingProblem>::empty() =~= views(errors@));
    while i < texts.len()
        invariant
            i <= texts.len(),
            all == views(texts@),
            keys@ == spelled_keys(all.take(i as int)),
            views(errors@) == views(old(errors)@) + unspelled_controls(id@, all.take(i as int)),
        decreases texts.len() - i,
    {
        proof {
            assert(all.take(i + 1).drop_last() =~= all.take(i as int));
            assert(all.take(i + 1).last() == texts@[i as int]@);
        }
        match Key::parse(texts[i].as_str()) {
            Ok(key) => keys.push(key),
            Err(_) => {
                report(
                    errors,
                    KeybindingError::InvalidShellKey { id: id.clone(), key: texts[i].clone() },
                );
                assert(views(errors@) =~= views(old(errors)@) + unspelled_controls(
                    id@,
                    all.take(i + 1),
                ));
            },
        }
        i = i + 1;
    }
    assert(all.take(i as int) =~= all);
    keys
}

fn report_repeated(id: &String, keys: &Vec<Key>, errors: &mut Vec<KeybindingError>)
    ensures
        views(final(errors)@) == views(old(errors)@) + repeated_controls(id@, keys@),
{
    let repeated = duplicate_keys(keys);
    let ghost all = repeated_controls(id@, keys@);
    let mut i: usize = 0;
    assert(views(errors@) =~= views(old(errors)@) + all.take(0));
    while i < repeated.len()
        invariant
            i <= repeated.len(),
            repeated@ == duplicates(keys@),
            all == repeated_controls(id@, keys@),
            views(errors@) == views(old(errors)@) + all.take(i as int),
        decreases repeated.len() - i,
    {
        let error = KeybindingError::DuplicateShellKey {
            id: id.clone(),
            key: repeated[i].to_string(),
        };
        assert(error@ == all[i as int]);
        report(errors, error);
        proof {
            assert(all.take(i + 1) =~= all.take(i as int).push(all[i as int]));
            assert(views(errors@) =~= views(old(errors)@) + all.take(i + 1));
        }
        i = i + 1;
    }
    assert(all.take(i as int) =~= all);
}

impl ResourceShellControls {
    pub fn new(prefix: Key, focus_tuivir: Vec<Key>, toggle_zoom: Vec<Key>) -> (controls: Self)
        ensures
            controls@ == (ControlsModel {
                prefix,
                focus_tuivir: focus_tuivir@,
                toggle_zoom: toggle_zoom@,
            }),
    {
        ResourceShellControls { prefix, focus_tuivir, toggle_zoom }
    }

    pub fn prefix(&self) -> (prefix: Key)
        ensures
            prefix == self@.prefix,
    {
        self.prefix
    }

    pub fn focus_tuivir(&self) -> (keys: &Vec<Key>)
        ensures
            keys@ == self@.focus_tuivir,
    {
        &self.focus_tuivir
    }

    pub fn toggle_zoom(&self) -> (keys: &Vec<Key>)
        ensures
            keys@ == self@.toggle_zoom,
    {
        &self.toggle_zoom
    }

    /// Applies one configured control.
    fn configure(&mut self, id: &String, texts: &Vec<String>, errors: &mut Vec<KeybindingError>)
        ensures
            final(self)@ == with_control(old(self)@, id@, spelled_keys(views(texts@))),
            views(final(errors)@) == views(old(errors)@) + control_problems(id@, views(texts@)),
    {
        let ghost before = views(errors@);
        let keys = spell_controls(id, texts, errors);
        report_repeated(id, &keys, errors);
        if same_text(id.as_str(), "focus_tuivir") {
            if keys.len() == 0 {
                report(errors, KeybindingError::EmptyShellKeybinding { id: id.clone() });
            } else {
                self.focus_tuivir = keys;
            }
        } else if same_text(id.as_str(), "toggle_zoom") {
            self.toggle_zoom = keys;
        } else {
            report(errors, KeybindingError::UnknownShellKeybinding { id: id.clone() });
        }
        assert(views(errors@) =~= before + control_problems(id@, views(texts@)));
    }

    /// Reports a control that the prefix itself would make unreachable.
    fn check_prefix(&self, id: &str, keys: &Vec<Key>, errors: &mut Vec<KeybindingError>)
        ensures
            views(final(errors)@) == views(old(errors)@) + collision(id@, keys@, self@.prefix),
    {
        let ghost before = views(errors@);
        if contains_key(keys, self.prefix) {
            report(
                errors,
                KeybindingError::ShellPrefixCollision {
                    id: id.to_owned(),
                    key: self.prefix.to_string(),
                },
            );
        }
        assert(views(errors@) =~= before + collision(id@, keys@, self@.prefix));
    }

    /// Reports the keys that both controls claim.
    fn check_shared(&self, errors: &mut Vec<KeybindingError>)
        ensures
            views(final(errors)@) == views(old(errors)@) + shared_keys(
                self@.focus_tuivir,
                self@.toggle_zoom,
            ),
    {
        let ghost before = views(errors@);
        let ghost focus = self@.focus_tuivir;
        let ghost zoom = self@.toggle_zoom;
        let mut i: usize = 0;
        assert(views(errors@) =~= before + Seq::<KeybindingProblem>::empty());
        while i < self.focus_tuivir.len()
            invariant
                i <= self.focus_tuivir.len(),
                focus == self.focus_tuivir@,
                zoom == self.toggle_zoom@,
                views(errors@) == before + shared_keys(focus.take(i as int), zoom),
            decreases self.focus_tuivir.len() - i,
        {
            let key = self.focus_tuivir[i];
            proof {
                assert(focus.take(i + 1).drop_last() =~= focus.take(i as int));
                assert(focus.take(i + 1).last() == key);
            }
            if contains_key(&self.toggle_zoom, key) {
                report(
                    errors,
                    KeybindingError::ConflictingShellKey {
                        key: key.to_string(),
                        first: "focus_tuivir".to_owned(),
                        second: "toggle_zoom".to_owned(),
                    },
                );
                assert(views(errors@) =~= before + shared_keys(focus.take(i + 1), zoom));
            }
            i = i + 1;
        }
        assert(focus.take(i as int) =~= focus);
    }

    /// Applies optional configuration over the Shell Prefix defaults and
    /// reports every validation failure without partially changing controls.
    pub fn effective(
        prefix: Option<String>,
        keybindings: Vec<(String, Vec<String>)>,
    ) -> (result: Result<Self, Vec<KeybindingError>>)
        ensures
            ({
                let text = opt_view(prefix);
                let bindings = overrides_view(keybindings@);
                &&& result is Ok <==> shell_configuration_problems(text, bindings).len() == 0
                &&& result matches Ok(controls) ==> controls@ == configured_controls(text, bindings)
                &&& result matches Err(errors) ==> views(errors@) == shell_configuration_problems(
                    text,
                    bindings,
                )
            }),
    {
        let mut controls = ResourceShellControls::default();
        let mut errors: Vec<KeybindingError> = Vec::new();
        let ghost text = opt_view(prefix);
        let ghost all = overrides_view(keybindings@);
        assert(views(errors@) =~= Seq::<KeybindingProblem>::empty());
        match prefix {
            Some(prefix) => match Key::parse(prefix.as_str()) {
                Ok(key) => {
                    controls.prefix = key;
                },
                Err(_) => report(&mut errors, KeybindingError::InvalidShellPrefix { key: prefix }),
            },
            None => {},
        }
        let ghost based = with_prefix(default_controls(), text);
        let ghost begun = prefix_problems(text);
        proof {
            assert(controls@ =~= based);
            assert(views(errors@) =~= begun);
            assert(begun + Seq::<KeybindingProblem>::empty() =~= begun);
        }
        let mut i: usize = 0;
        while i < keybindings.len()
            invariant
                i <= keybindings.len(),
                all == overrides_view(keybindings@),
                controls@ == with_controls(based, all.take(i as int)),
                views(errors@) == begun + controls_problems(all.take(i as int)),
            decreases keybindings.len() - i,
        {
            let ghost before = views(errors@);
            proof {
                assert(all.take(i + 1).drop_last() =~= all.take(i as int));
                assert(all.take(i + 1).last() == (
                    keybindings@[i as int].0@,
                    views(keybindings@[i as int].1@),
                ));
            }
            controls.configure(&keybindings[i].0, &keybindings[i].1, &mut errors);
            assert(views(errors@) =~= begun + controls_problems(all.take(i + 1)));
            i = i + 1;
        }
        assert(all.take(i as int) =~= all);
        let ghost found = views(errors@);
        controls.check_prefix("focus_tuivir", &controls.focus_tuivir, &mut errors);
        controls.check_prefix("toggle_zoom", &controls.toggle_zoom, &mut errors);
        controls.check_shared(&mut errors);
        assert(views(errors@) =~= found + controls_conflicts(controls@));
        assert(errors.len() == views(errors@).len());
        if errors.len() == 0 {
            Ok(controls)
        } else {
            Err(errors)
        }
    }
}

proof fn lemma_shared_keys_complete(focus: Seq<Key>, zoom: Seq<Key>, i: int)
    requires
        0 <= i < focus.len(),
        zoom.contains(focus[i]),
    ensures
        shared_keys(focus, zoom).len() > 0,
    decreases focus.len(),
{
    if i < focus.len() - 1 {
        assert(focus.drop_last()[i] == focus[i]);
        lemma_shared_keys_complete(focus.drop_last(), zoom, i);
    }
}

proof fn lemma_focus_control_stays_bound(
    controls: ControlsModel,
    bindings: Seq<(Seq<char>, Seq<Seq<char>>)>,
)
    requires
        controls.focus_tuivir.len() > 0,
    ensures
        with_controls(controls, bindings).focus_tuivir.len() > 0,
    decreases bindings.len(),
{
    if bindings.len() > 0 {
        lemma_focus_control_stays_bound(controls, bindings.drop_last());
    }
}

/// In every accepted configuration the user can return to Tuivir, the prefix
/// reaches both controls, and no key means both.
pub proof fn law_accepted_controls_are_reachable(
    prefix: Option<Seq<char>>,
    bindings: Seq<(Seq<char>, Seq<Seq<char>>)>,
)
    requires
        shell_configuration_problems(prefix, bindings).len() == 0,
    ensures
        ({
            let controls = configured_controls(prefix, bindings);
            &&& controls.focus_tuivir.len() > 0
            &&& !controls.focus_tuivir.contains(controls.prefix)
            &&& !controls.toggle_zoom.contains(controls.prefix)
            &&& forall|key: Key|
                !(#[trigger] controls.focus_tuivir.contains(key) && controls.toggle_zoom.contains(
                    key,
                ))
        }),
{
    let controls = configured_controls(prefix, bindings);
    lemma_focus_control_stays_bound(with_prefix(default_controls(), prefix), bindings);
    assert(controls_conflicts(controls).len() == 0);
    assert forall|key: Key|
        !(#[trigger] controls.focus_tuivir.contains(key) && controls.toggle_zoom.contains(key)) by {
        if controls.focus_tuivir.contains(key) && controls.toggle_zoom.contains(key) {
            let i = choose|i: int|
                0 <= i < controls.focus_tuivir.len() && controls.focus_tuivir[i] == key;
            lemma_shared_keys_complete(controls.focus_tuivir, controls.toggle_zoom, i);
        }
    }
}

} // verus!
