//! Command registration, configuration policy, dispatch, and display metadata.

use vstd::prelude::*;
use vstd::string::*;

use super::key::{shown, parsed, Key, KeyCode};
use super::keybinding::{
    contains_key, duplicate_keys, duplicates, KeybindingError, KeybindingProblem,
};
use crate::text::{
    first_position, lemma_first_position, lemma_first_position_found, lemma_first_position_none,
    same_text, views,
};

pub mod binding_laws;
pub mod defaults;
pub mod laws;
pub mod problem_laws;
pub mod table_laws;

use defaults::{builtin_commands, builtin_table};

verus! {

/// A lifecycle operation on one Resource.
#[derive(Clone, Copy, Debug, PartialEq, Eq, Structural)]
pub enum ResourceCommand {
    Start,
    Stop,
    Restart,
    /// Returns a suspended Resource to running: Docker `unpause`, Incus
    /// `unfreeze`.
    Resume,
    Delete,
}

/// The word that names a lifecycle operation.
pub open spec fn resource_command_text(command: ResourceCommand) -> Seq<char> {
    match command {
        ResourceCommand::Start => "start"@,
        ResourceCommand::Stop => "stop"@,
        ResourceCommand::Restart => "restart"@,
        ResourceCommand::Resume => "resume"@,
        ResourceCommand::Delete => "delete"@,
    }
}

impl ResourceCommand {
    /// The word that names the operation.
    pub fn as_str(&self) -> (text: &'static str)
        ensures
            text@ == resource_command_text(*self),
    {
        match self {
            ResourceCommand::Start => "start",
            ResourceCommand::Stop => "stop",
            ResourceCommand::Restart => "restart",
            ResourceCommand::Resume => "resume",
            ResourceCommand::Delete => "delete",
        }
    }

    pub fn to_string(&self) -> (text: String)
        ensures
            text@ == resource_command_text(*self),
    {
        self.as_str().to_owned()
    }
}

/// One registered user intention.
///
/// A Command is what the user meant, not what happened: facts and asynchronous
/// completions are events of the application.
#[derive(Clone, Copy, Debug, PartialEq, Eq, Structural)]
pub enum Command {
    Quit,
    ToggleHelp,
    /// Refreshes the Active Workspace now rather than waiting for the clock.
    Refresh,
    FocusProviders,
    /// Focuses a Resource Panel by its zero-based provider-defined position.
    FocusResourcePanel(usize),
    FocusDetails,
    FocusNextPane,
    FocusPreviousPane,
    /// Moves the selection in whichever panel has focus.
    SelectNext,
    SelectPrevious,
    /// Moves the resource selection by a five-item delta, clamped at the ends.
    SelectNextFast,
    SelectPreviousFast,
    NextWorkspace,
    PreviousWorkspace,
    /// Moves through the Detail View Tabs of the selected Resource.
    NextDetailView,
    PreviousDetailView,
    /// Moves through the output of the visible detail view.
    ScrollDetailsDown,
    ScrollDetailsUp,
    /// Sends the selected Details text to the clipboard.
    CopyDetails,
    /// Starts selecting Details text at a position of the viewport.
    BeginDetailsSelection { line: u16, column: u16 },
    /// Carries the end of the Details selection to a position of the viewport.
    ExtendDetailsSelection { line: u16, column: u16 },
    /// Scrolls one line towards the edge the pointer left the viewport by, and
    /// carries the end of the selection there.
    ExtendDetailsSelectionAtEdge { above: bool, column: u16, visible_rows: u16 },
    MovePaneBoundaryLeft,
    MovePaneBoundaryRight,
    /// Takes hold of the Pane Boundary at one of its columns.
    GrabPaneBoundary(u16),
    /// Carries a held Pane Boundary to a share of the Workspace's width.
    SetPaneBoundary(u16),
    ReleasePaneBoundary,
    /// Opens a Resource Shell Session inside the selected Resource.
    OpenShell,
    /// Starts the session of the visible Shell Detail View Tab again.
    StartResourceShell,
    /// Toggles a Resource Shell Session between the Details Pane and the whole
    /// Workspace.
    ToggleResourceShellSize,
    /// Accepts the open modal.
    Confirm,
    /// Cancels or returns from the open modal.
    Cancel,
    Resource(ResourceCommand),
    ActivateProviderWorkspace(usize),
    SelectResource { panel: usize, resource: usize },
    ActivateDetailView(usize),
    ScrollResourcePanelUp(usize),
    ScrollResourcePanelDown(usize),
}

/// The structural part of the interface in which a Command may be invoked.
///
/// Scope is structural only. Mutable Resource State never changes it; an
/// unavailable Command is rejected when it is invoked, not hidden by scope.
#[derive(Clone, Copy, Debug, PartialEq, Eq, Hash, Structural)]
pub enum CommandScope {
    /// The provider selector has focus.
    ProviderSelector,
    /// The Provider Workspace's resource view has focus.
    ResourceView,
    /// One provider-ordered Resource Panel has focus.
    ResourcePanel(usize),
    /// The Details pane has focus.
    Details,
    /// A Resource Command is waiting to be confirmed.
    Confirmation,
    /// A failed Resource Command is being reported.
    CommandFailure,
    /// The contextual help overlay is open.
    HelpOverlay,
}

/// One Command with the keys that are actually bound to it.
#[derive(Debug, PartialEq, Eq)]
pub struct EffectiveCommand {
    /// The stable, lowercase configuration identifier.
    pub id: &'static str,
    pub description: &'static str,
    pub command: Command,
    pub scopes: Vec<CommandScope>,
    /// The effective keys, in order. The first is the preferred inline hint;
    /// an empty list means the Command is unbound.
    pub keys: Vec<Key>,
}

/// What an [`EffectiveCommand`] registers.
#[verifier::ext_equal]
pub struct CommandModel {
    pub id: Seq<char>,
    pub description: Seq<char>,
    pub command: Command,
    pub scopes: Seq<CommandScope>,
    pub keys: Seq<Key>,
}

impl View for EffectiveCommand {
    type V = CommandModel;

    open spec fn view(&self) -> CommandModel {
        CommandModel {
            id: self.id@,
            description: self.description@,
            command: self.command,
            scopes: self.scopes@,
            keys: self.keys@,
        }
    }
}

/// Every registered Command with its effective Keybindings.
///
/// One registry drives dispatch, contextual help, and inline hints, so none of
/// the three can drift from the others.
#[derive(Debug)]
pub struct CommandRegistry {
    commands: Vec<EffectiveCommand>,
}

impl View for CommandRegistry {
    type V = Seq<CommandModel>;

    closed spec fn view(&self) -> Seq<CommandModel> {
        views(self.commands@)
    }
}

/// The key that always quits: `ctrl+c`.
pub open spec fn emergency_quit() -> Key {
    Key { code: KeyCode::Character('c'), ctrl: true, alt: false }
}

/// The configuration identifiers of registered Commands.
pub open spec fn command_ids(registry: Seq<CommandModel>) -> Seq<Seq<char>> {
    registry.map_values(|command: CommandModel| command.id)
}

/// The Commands themselves.
pub open spec fn commands_of(registry: Seq<CommandModel>) -> Seq<Command> {
    registry.map_values(|command: CommandModel| command.command)
}

/// Whether a Command registered for `scopes` can be invoked in `scope`: a
/// Command of the resource view answers in every Resource Panel.
pub open spec fn answers_in(scopes: Seq<CommandScope>, scope: CommandScope) -> bool {
    exists|i: int|
        0 <= i < scopes.len() && (#[trigger] scopes[i] == scope || (scopes[i]
            == CommandScope::ResourceView && scope is ResourcePanel))
}

/// Whether a registered Command is a control the user has in `scope`.
pub open spec fn offered(command: CommandModel, scope: CommandScope) -> bool {
    answers_in(command.scopes, scope) && command.keys.len() > 0
}

/// The bound Commands registered for `scope`, in registration order.
pub open spec fn offered_in(registry: Seq<CommandModel>, scope: CommandScope) -> Seq<CommandModel>
    decreases registry.len(),
{
    if registry.len() == 0 {
        Seq::empty()
    } else {
        let earlier = offered_in(registry.drop_last(), scope);
        if offered(registry.last(), scope) {
            earlier.push(registry.last())
        } else {
            earlier
        }
    }
}

/// The Command that a key invokes in `scope`: the first one registered.
pub open spec fn resolved(
    registry: Seq<CommandModel>,
    scope: CommandScope,
    key: Key,
) -> Option<Command>
    decreases registry.len(),
{
    if registry.len() == 0 {
        None
    } else if offered(registry[0], scope) && registry[0].keys.contains(key) {
        Some(registry[0].command)
    } else {
        resolved(registry.drop_first(), scope, key)
    }
}

/// The preferred inline hint of a Command.
pub open spec fn hint(registry: Seq<CommandModel>, command: Command) -> Option<Key> {
    match first_position(commands_of(registry), command) {
        Some(i) => if registry[i].keys.len() > 0 {
            Some(registry[i].keys[0])
        } else {
            None
        },
        None => None,
    }
}

/// The keys that the texts of an override spell, in order.
pub open spec fn spelled_keys(texts: Seq<Seq<char>>) -> Seq<Key>
    decreases texts.len(),
{
    if texts.len() == 0 {
        Seq::empty()
    } else {
        let earlier = spelled_keys(texts.drop_last());
        match parsed(texts.last()) {
            Some(key) => earlier.push(key),
            None => earlier,
        }
    }
}

/// A report for each text that spells no key.
pub open spec fn unspelled(id: Seq<char>, texts: Seq<Seq<char>>) -> Seq<KeybindingProblem>
    decreases texts.len(),
{
    if texts.len() == 0 {
        Seq::empty()
    } else {
        let earlier = unspelled(id, texts.drop_last());
        match parsed(texts.last()) {
            Some(_) => earlier,
            None => earlier.push(KeybindingProblem::InvalidKey { id, key: texts.last() }),
        }
    }
}

/// A report for each key that one override lists more than once.
pub open spec fn repetitions(id: Seq<char>, keys: Seq<Key>) -> Seq<KeybindingProblem> {
    duplicates(keys).map_values(
        |key: Key| KeybindingProblem::DuplicateKey { id, key: shown(key) },
    )
}

/// The registry after one override: the named Command's complete key list is
/// replaced.
pub open spec fn with_override(
    registry: Seq<CommandModel>,
    id: Seq<char>,
    keys: Seq<Key>,
) -> Seq<CommandModel> {
    match first_position(command_ids(registry), id) {
        Some(i) => registry.update(i, CommandModel { keys, ..registry[i] }),
        None => registry,
    }
}

/// Everything wrong with one override.
pub open spec fn override_problems(
    registry: Seq<CommandModel>,
    id: Seq<char>,
    texts: Seq<Seq<char>>,
) -> Seq<KeybindingProblem> {
    unspelled(id, texts) + repetitions(id, spelled_keys(texts)) + (if command_ids(
        registry,
    ).contains(id) {
        Seq::empty()
    } else {
        seq![KeybindingProblem::UnknownCommand { id }]
    })
}

/// The registry after a table of overrides, applied in order.
pub open spec fn with_overrides(
    registry: Seq<CommandModel>,
    overrides: Seq<(Seq<char>, Seq<Seq<char>>)>,
) -> Seq<CommandModel>
    decreases overrides.len(),
{
    if overrides.len() == 0 {
        registry
    } else {
        with_override(
            with_overrides(registry, overrides.drop_last()),
            overrides.last().0,
            spelled_keys(overrides.last().1),
        )
    }
}

/// Everything wrong with the overrides taken one by one.
pub open spec fn overrides_problems(
    registry: Seq<CommandModel>,
    overrides: Seq<(Seq<char>, Seq<Seq<char>>)>,
) -> Seq<KeybindingProblem>
    decreases overrides.len(),
{
    if overrides.len() == 0 {
        Seq::empty()
    } else {
        overrides_problems(registry, overrides.drop_last()) + override_problems(
            with_overrides(registry, overrides.drop_last()),
            overrides.last().0,
            overrides.last().1,
        )
    }
}

/// One Command with the emergency key in place.
pub open spec fn quittable(command: CommandModel) -> CommandModel {
    if command.command == Command::Quit && !command.keys.contains(emergency_quit()) {
        CommandModel { keys: command.keys.push(emergency_quit()), ..command }
    } else {
        command
    }
}

/// The registry with the emergency key bound to Quit: where the user listed it
/// explicitly it keeps the position they chose, otherwise it comes last.
pub open spec fn with_emergency_quit(registry: Seq<CommandModel>) -> Seq<CommandModel> {
    registry.map_values(|command: CommandModel| quittable(command))
}

/// A report for each Command other than Quit that claims the emergency key.
pub open spec fn emergency_claims(registry: Seq<CommandModel>) -> Seq<KeybindingProblem>
    decreases registry.len(),
{
    if registry.len() == 0 {
        Seq::empty()
    } else {
        let earlier = emergency_claims(registry.drop_last());
        let command = registry.last();
        if command.command != Command::Quit && command.keys.contains(emergency_quit()) {
            earlier.push(
                KeybindingProblem::ReservedKey { id: command.id, key: shown(emergency_quit()) },
            )
        } else {
            earlier
        }
    }
}

/// Whether a Command claims a key in a scope.
pub open spec fn claims(command: CommandModel, scope: CommandScope, key: Key) -> bool {
    command.scopes.contains(scope) && command.keys.contains(key)
}

/// The first Command registered that claims a key in a scope.
pub open spec fn first_claimant(registry: Seq<CommandModel>, scope: CommandScope, key: Key) -> int
    decreases registry.len(),
{
    if registry.len() == 0 || claims(registry[0], scope, key) {
        0
    } else {
        1 + first_claimant(registry.drop_first(), scope, key)
    }
}

/// The conflicts once one more claim has been looked at. A pair sharing several
/// scopes conflicts once.
pub open spec fn with_claim(
    registry: Seq<CommandModel>,
    command: int,
    scope: CommandScope,
    key: Key,
    conflicts: Seq<KeybindingProblem>,
) -> Seq<KeybindingProblem> {
    let first = registry[first_claimant(registry, scope, key)].id;
    let conflict = KeybindingProblem::ConflictingKey {
        key: shown(key),
        first,
        second: registry[command].id,
    };
    if key == emergency_quit() || first == registry[command].id || conflicts.contains(conflict) {
        conflicts
    } else {
        conflicts.push(conflict)
    }
}

/// The conflicts after the first `count` keys of a Command in one scope.
pub open spec fn conflicts_over_keys(
    registry: Seq<CommandModel>,
    command: int,
    scope: CommandScope,
    count: nat,
    conflicts: Seq<KeybindingProblem>,
) -> Seq<KeybindingProblem>
    decreases count,
{
    if count == 0 {
        conflicts
    } else {
        with_claim(
            registry,
            command,
            scope,
            registry[command].keys[count - 1],
            conflicts_over_keys(registry, command, scope, (count - 1) as nat, conflicts),
        )
    }
}

/// The conflicts after the first `count` scopes of a Command.
pub open spec fn conflicts_over_scopes(
    registry: Seq<CommandModel>,
    command: int,
    count: nat,
    conflicts: Seq<KeybindingProblem>,
) -> Seq<KeybindingProblem>
    decreases count,
{
    if count == 0 {
        conflicts
    } else {
        conflicts_over_keys(
            registry,
            command,
            registry[command].scopes[count - 1],
            registry[command].keys.len(),
            conflicts_over_scopes(registry, command, (count - 1) as nat, conflicts),
        )
    }
}

/// The conflicts among the first `count` Commands.
pub open spec fn conflicts_among(registry: Seq<CommandModel>, count: nat) -> Seq<KeybindingProblem>
    decreases count,
{
    if count == 0 {
        Seq::empty()
    } else {
        conflicts_over_scopes(
            registry,
            count - 1,
            registry[count - 1].scopes.len(),
            conflicts_among(registry, (count - 1) as nat),
        )
    }
}

/// Every key claimed by two Commands that share a scope.
pub open spec fn conflicts_in(registry: Seq<CommandModel>) -> Seq<KeybindingProblem> {
    conflicts_among(registry, registry.len())
}

/// A table of overrides as the configuration supplies it.
pub open spec fn overrides_view(
    overrides: Seq<(String, Vec<String>)>,
) -> Seq<(Seq<char>, Seq<Seq<char>>)> {
    overrides.map_values(|entry: (String, Vec<String>)| (entry.0@, views(entry.1@)))
}

/// The registry that a table of overrides asks for, whether or not it is valid.
pub open spec fn configured(
    overrides: Seq<(Seq<char>, Seq<Seq<char>>)>,
) -> Seq<CommandModel> {
    with_emergency_quit(with_overrides(builtin_commands(), overrides))
}

/// Every problem a table of overrides has, in the order reported.
pub open spec fn configuration_problems(
    overrides: Seq<(Seq<char>, Seq<Seq<char>>)>,
) -> Seq<KeybindingProblem> {
    overrides_problems(builtin_commands(), overrides) + emergency_claims(
        with_overrides(builtin_commands(), overrides),
    ) + conflicts_in(configured(overrides))
}

impl Default for CommandRegistry {
    fn default() -> (registry: Self)
        ensures
            registry@ == builtin_commands(),
    {
        CommandRegistry::builtin()
    }
}

/// Reads the keys of one override, reporting each text that spells none.
fn spell_keys(id: &String, texts: &Vec<String>, errors: &mut Vec<KeybindingError>) -> (keys: Vec<
    Key,
>)
    ensures
        keys@ == spelled_keys(views(texts@)),
        views(final(errors)@) == views(old(errors)@) + unspelled(id@, views(texts@)),
{
    let mut keys: Vec<Key> = Vec::new();
    let mut i: usize = 0;
    let ghost all = views(texts@);
    assert(views(errors@) + Seq::<KeybindingProblem>::empty() =~= views(errors@));
    while i < texts.len()
        invariant
            i <= texts.len(),
            all == views(texts@),
            keys@ == spelled_keys(all.take(i as int)),
            views(errors@) == views(old(errors)@) + unspelled(id@, all.take(i as int)),
        decreases texts.len() - i,
    {
        proof {
            assert(all.take(i + 1).drop_last() =~= all.take(i as int));
            assert(all.take(i + 1).last() == texts@[i as int]@);
        }
        match Key::parse(texts[i].as_str()) {
            Ok(key) => keys.push(key),
            Err(invalid) => {
                let ghost before = errors@;
                let error = KeybindingError::InvalidKey { id: id.clone(), key: invalid.input };
                errors.push(error);
                proof {
                    assert(views(errors@) =~= views(before).push(error@));
                    assert(views(errors@) =~= views(old(errors)@) + unspelled(
                        id@,
                        all.take(i + 1),
                    ));
                }
            },
        }
        i = i + 1;
    }
    assert(all.take(i as int) =~= all);
    keys
}

/// Reports each key one Command lists more than once, naming it once however
/// many times it was repeated.
fn report_duplicates(id: &String, keys: &Vec<Key>, errors: &mut Vec<KeybindingError>)
    ensures
        views(final(errors)@) == views(old(errors)@) + repetitions(id@, keys@),
{
    let repeated = duplicate_keys(keys);
    let ghost all = repetitions(id@, keys@);
    let mut i: usize = 0;
    assert(views(errors@) =~= views(old(errors)@) + all.take(0));
    while i < repeated.len()
        invariant
            i <= repeated.len(),
            repeated@ == duplicates(keys@),
            all == repetitions(id@, keys@),
            views(errors@) == views(old(errors)@) + all.take(i as int),
        decreases repeated.len() - i,
    {
        let ghost before = errors@;
        let error = KeybindingError::DuplicateKey { id: id.clone(), key: repeated[i].to_string() };
        errors.push(error);
        proof {
            assert(views(errors@) =~= views(before).push(error@));
            assert(error@ == all[i as int]);
            assert(all.take(i + 1) =~= all.take(i as int).push(all[i as int]));
            assert(views(errors@) =~= views(old(errors)@) + all.take(i + 1));
        }
        i = i + 1;
    }
    assert(all.take(i as int) =~= all);
}

fn contains_scope(scopes: &Vec<CommandScope>, scope: CommandScope) -> (found: bool)
    ensures
        found == scopes@.contains(scope),
{
    let mut i: usize = 0;
    while i < scopes.len()
        invariant
            i <= scopes.len(),
            forall|j: int| 0 <= j < i ==> scopes@[j] != scope,
        decreases scopes.len() - i,
    {
        if scopes[i] == scope {
            return true;
        }
        i = i + 1;
    }
    false
}

impl CommandRegistry {
    /// The compiled defaults, before any configuration is layered over them.
    pub fn builtin() -> (registry: Self)
        ensures
            registry@ == builtin_commands(),
    {
        CommandRegistry { commands: builtin_table() }
    }

    fn position(&self, id: &str) -> (found: Option<usize>)
        ensures
            found matches Some(i) ==> first_position(command_ids(self@), id@) == Some(i as int) && i
                < self@.len(),
            found is None ==> first_position(command_ids(self@), id@) is None,
    {
        let ghost ids = command_ids(self@);
        let mut i: usize = 0;
        while i < self.commands.len()
            invariant
                i <= self.commands.len(),
                ids == command_ids(self@),
                self@ == views(self.commands@),
                forall|j: int| 0 <= j < i ==> ids[j] != id@,
            decreases self.commands.len() - i,
        {
            assert(ids[i as int] == self.commands@[i as int].id@);
            if same_text(self.commands[i].id, id) {
                proof {
                    lemma_first_position_found(ids, id@, i as int);
                }
                return Some(i);
            }
            i = i + 1;
        }
        proof {
            lemma_first_position_none(ids, id@);
        }
        None
    }

    /// Layers a `[keybindings]` table over the compiled defaults.
    ///
    /// The table is a partial override: mentioning a Command replaces its
    /// complete key list, omitting it preserves the defaults, and an empty list
    /// leaves it unbound. Nothing is applied unless everything validates.
    pub fn effective(overrides: &Vec<(String, Vec<String>)>) -> (result: Result<
        Self,
        Vec<KeybindingError>,
    >)
        ensures
            result is Ok <==> configuration_problems(overrides_view(overrides@)).len() == 0,
            result matches Ok(registry) ==> registry@ == configured(overrides_view(overrides@)),
            result matches Err(errors) ==> views(errors@) == configuration_problems(
                overrides_view(overrides@),
            ),
    {
        let mut registry = CommandRegistry::builtin();
        let mut errors: Vec<KeybindingError> = Vec::new();
        let ghost all = overrides_view(overrides@);
        let ghost compiled = builtin_commands();
        assert(views(errors@) =~= Seq::<KeybindingProblem>::empty());
        let mut i: usize = 0;
        while i < overrides.len()
            invariant
                i <= overrides.len(),
                all == overrides_view(overrides@),
                compiled == builtin_commands(),
                registry@ == with_overrides(compiled, all.take(i as int)),
                views(errors@) == overrides_problems(compiled, all.take(i as int)),
            decreases overrides.len() - i,
        {
            let ghost before = views(errors@);
            let ghost applied = registry@;
            let id: &String = &overrides[i].0;
            let texts: &Vec<String> = &overrides[i].1;
            proof {
                assert(all.take(i + 1).drop_last() =~= all.take(i as int));
                assert(all.take(i + 1).last() == (id@, views(texts@)));
            }
            let keys = spell_keys(id, texts, &mut errors);
            report_duplicates(id, &keys, &mut errors);
            let ghost listed = views(errors@);
            proof {
                lemma_first_position(command_ids(applied), id@);
            }
            match registry.position(id.as_str()) {
                Some(index) => {
                    registry.bind(index, keys);
                    proof {
                        assert(command_ids(applied)[index as int] == id@);
                        assert(views(errors@) =~= before + override_problems(
                            applied,
                            id@,
                            views(texts@),
                        ));
                    }
                },
                None => {
                    let ghost earlier = errors@;
                    let error = KeybindingError::UnknownCommand { id: id.clone() };
                    errors.push(error);
                    proof {
                        assert(views(errors@) =~= views(earlier).push(error@));
                        assert(views(errors@) =~= before + override_problems(
                            applied,
                            id@,
                            views(texts@),
                        ));
                    }
                },
            }
            i = i + 1;
        }
        assert(all.take(i as int) =~= all);
        registry.enforce_emergency_quit(&mut errors);
        registry.conflicting_keys(&mut errors);
        assert(errors.len() == views(errors@).len());
        if errors.len() == 0 {
            Ok(registry)
        } else {
            Err(errors)
        }
    }

    /// Replaces the complete key list of one Command.
    fn bind(&mut self, index: usize, keys: Vec<Key>)
        requires
            index < old(self)@.len(),
        ensures
            final(self)@ == old(self)@.update(
                index as int,
                CommandModel { keys: keys@, ..old(self)@[index as int] },
            ),
    {
        let ghost before = self.commands@;
        let entry = &self.commands[index];
        let replaced = EffectiveCommand {
            id: entry.id,
            description: entry.description,
            command: entry.command,
            scopes: copy_scopes(&entry.scopes),
            keys,
        };
        self.commands.set(index, replaced);
        assert(self@ =~= views(before).update(index as int, replaced@));
    }

    /// Keeps `ctrl+c` bound to Quit and to nothing else.
    ///
    /// A user who lists it explicitly keeps the position they chose; otherwise
    /// it is appended, so it is an invariant rather than a preferred hint.
    fn enforce_emergency_quit(&mut self, errors: &mut Vec<KeybindingError>)
        ensures
            final(self)@ == with_emergency_quit(old(self)@),
            views(final(errors)@) == views(old(errors)@) + emergency_claims(old(self)@),
    {
        let emergency = CommandRegistry::emergency_quit_key();
        let ghost start = self@;
        let mut i: usize = 0;
        assert(views(errors@) + Seq::<KeybindingProblem>::empty() =~= views(errors@));
        while i < self.commands.len()
            invariant
                i <= start.len(),
                emergency == emergency_quit(),
                start == old(self)@,
                self@.len() == start.len(),
                self@ == views(self.commands@),
                forall|j: int| 0 <= j < i ==> #[trigger] self@[j] == quittable(start[j]),
                forall|j: int| i <= j < start.len() ==> #[trigger] self@[j] == start[j],
                views(errors@) == views(old(errors)@) + emergency_claims(start.take(i as int)),
            decreases start.len() - i,
        {
            proof {
                assert(start.take(i + 1).drop_last() =~= start.take(i as int));
                assert(self@[i as int] == start[i as int]);
                assert(self@[i as int] == self.commands@[i as int]@);
            }
            let bound = contains_key(&self.commands[i].keys, emergency);
            if self.commands[i].command == Command::Quit {
                if !bound {
                    let mut keys = copy_keys(&self.commands[i].keys);
                    keys.push(emergency);
                    self.bind(i, keys);
                }
            } else if bound {
                let ghost before = errors@;
                let error = KeybindingError::ReservedKey {
                    id: self.commands[i].id.to_owned(),
                    key: emergency.to_string(),
                };
                errors.push(error);
                proof {
                    assert(views(errors@) =~= views(before).push(error@));
                    assert(views(errors@) =~= views(old(errors)@) + emergency_claims(
                        start.take(i + 1),
                    ));
                }
            }
            i = i + 1;
        }
        proof {
            assert(start.take(i as int) =~= start);
            assert(self@ =~= with_emergency_quit(start));
        }
    }

    /// The first registered Command that claims a key in a scope.
    fn claimant(&self, scope: CommandScope, key: Key) -> (index: usize)
        requires
            exists|i: int| 0 <= i < self@.len() && #[trigger] claims(self@[i], scope, key),
        ensures
            index == first_claimant(self@, scope, key),
            index < self@.len(),
    {
        let mut i: usize = 0;
        assert(self@.skip(0) =~= self@);
        while i < self.commands.len()
            invariant
                i <= self.commands.len(),
                self@ == views(self.commands@),
                first_claimant(self@, scope, key) == i + first_claimant(
                    self@.skip(i as int),
                    scope,
                    key,
                ),
                exists|j: int| i <= j < self@.len() && #[trigger] claims(self@[j], scope, key),
            decreases self.commands.len() - i,
        {
            assert(self@.skip(i as int)[0] == self.commands@[i as int]@);
            if contains_scope(&self.commands[i].scopes, scope) && contains_key(
                &self.commands[i].keys,
                key,
            ) {
                return i;
            }
            assert(self@.skip(i as int).drop_first() =~= self@.skip(i + 1));
            i = i + 1;
        }
        0
    }

    /// Looks at one claim of a Command.
    fn check_claim(
        &self,
        command: usize,
        scope: CommandScope,
        key: Key,
        conflicts: &mut Vec<KeybindingError>,
    )
        requires
            command < self@.len(),
            claims(self@[command as int], scope, key),
        ensures
            views(final(conflicts)@) == with_claim(
                self@,
                command as int,
                scope,
                key,
                views(old(conflicts)@),
            ),
    {
        let first = self.claimant(scope, key);
        assert(self@[first as int] == self.commands@[first as int]@);
        assert(self@[command as int] == self.commands@[command as int]@);
        // Taking the emergency Quit is already reported against the Command
        // that took it, which says more than a conflict with the Quit it can
        // never win against.
        if key == CommandRegistry::emergency_quit_key() {
            return;
        }
        // Claiming a free key, and one Command listing a key twice, both land
        // here. The repeat is a duplicate rather than a conflict, and is
        // reported as one.
        if same_text(self.commands[first].id, self.commands[command].id) {
            return;
        }
        let conflict = KeybindingError::ConflictingKey {
            key: key.to_string(),
            first: self.commands[first].id.to_owned(),
            second: self.commands[command].id.to_owned(),
        };
        let mut i: usize = 0;
        let ghost known = views(conflicts@);
        while i < conflicts.len()
            invariant
                i <= conflicts.len(),
                known == views(conflicts@),
                *conflicts == *old(conflicts),
                conflict@ == (KeybindingProblem::ConflictingKey {
                    key: shown(key),
                    first: self@[first as int].id,
                    second: self@[command as int].id,
                }),
                first == first_claimant(self@, scope, key),
                forall|j: int| 0 <= j < i ==> known[j] != conflict@,
            decreases conflicts.len() - i,
        {
            assert(known[i as int] == conflicts@[i as int]@);
            if conflicts[i].same(&conflict) {
                assert(known.contains(conflict@));
                return;
            }
            i = i + 1;
        }
        conflicts.push(conflict);
        assert(views(conflicts@) =~= known.push(conflict@));
    }

    /// Looks at the claims of one Command in one scope.
    fn check_keys(
        &self,
        command: usize,
        scope: CommandScope,
        conflicts: &mut Vec<KeybindingError>,
    )
        requires
            command < self@.len(),
            self@[command as int].scopes.contains(scope),
        ensures
            views(final(conflicts)@) == conflicts_over_keys(
                self@,
                command as int,
                scope,
                self@[command as int].keys.len(),
                views(old(conflicts)@),
            ),
    {
        let ghost registry = self@;
        assert(registry[command as int] == self.commands@[command as int]@);
        let mut i: usize = 0;
        while i < self.commands[command].keys.len()
            invariant
                command < self.commands.len(),
                registry == self@,
                registry.len() == self.commands.len(),
                registry[command as int] == self.commands@[command as int]@,
                registry[command as int].scopes.contains(scope),
                i <= registry[command as int].keys.len(),
                views(conflicts@) == conflicts_over_keys(
                    registry,
                    command as int,
                    scope,
                    i as nat,
                    views(old(conflicts)@),
                ),
            decreases registry[command as int].keys.len() - i,
        {
            let key = self.commands[command].keys[i];
            assert(registry[command as int].keys[i as int] == key);
            self.check_claim(command, scope, key, conflicts);
            i = i + 1;
        }
    }

    /// Reports every key claimed by two Commands that share a scope.
    ///
    /// Commands whose scopes cannot overlap are never reachable together, so
    /// they may share a key freely; those that can overlap would otherwise be
    /// resolved by registration order, which is a priority the user cannot see.
    /// Scopes come from the Commands themselves, so a new scope cannot be left
    /// out of the check by forgetting to list it.
    fn conflicting_keys(&self, errors: &mut Vec<KeybindingError>)
        ensures
            views(final(errors)@) == views(old(errors)@) + conflicts_in(self@),
    {
        let mut conflicts: Vec<KeybindingError> = Vec::new();
        let ghost registry = self@;
        assert(views(conflicts@) =~= Seq::<KeybindingProblem>::empty());
        let mut c: usize = 0;
        while c < self.commands.len()
            invariant
                registry == self@,
                registry.len() == self.commands.len(),
                registry == views(self.commands@),
                c <= self.commands.len(),
                views(conflicts@) == conflicts_among(registry, c as nat),
            decreases self.commands.len() - c,
        {
            assert(registry[c as int] == self.commands@[c as int]@);
            let mut s: usize = 0;
            let ghost before = views(conflicts@);
            while s < self.commands[c].scopes.len()
                invariant
                    registry == self@,
                    registry.len() == self.commands.len(),
                    c < self.commands.len(),
                    registry[c as int] == self.commands@[c as int]@,
                    s <= registry[c as int].scopes.len(),
                    views(conflicts@) == conflicts_over_scopes(
                        registry,
                        c as int,
                        s as nat,
                        before,
                    ),
                decreases registry[c as int].scopes.len() - s,
            {
                let scope = self.commands[c].scopes[s];
                assert(registry[c as int].scopes[s as int] == scope);
                self.check_keys(c, scope, &mut conflicts);
                s = s + 1;
            }
            c = c + 1;
        }
        let ghost found = conflicts@;
        errors.append(&mut conflicts);
        assert(views(errors@) =~= views(old(errors)@) + views(found));
    }

    /// The key that always quits.
    pub fn emergency_quit_key() -> (key: Key)
        ensures
            key == emergency_quit(),
    {
        Key::character('c').with_ctrl()
    }

    /// Resolves a key that is bound no matter the scope or the configuration.
    ///
    /// Only the emergency Quit is reserved, so the user can always restore
    /// their terminal.
    pub fn reserved(&self, key: Key) -> (command: Option<Command>)
        ensures
            command == (if key == emergency_quit() {
                Some(Command::Quit)
            } else {
                None
            }),
    {
        if key == CommandRegistry::emergency_quit_key() {
            Some(Command::Quit)
        } else {
            None
        }
    }

    fn is_offered(&self, index: usize, scope: CommandScope) -> (answer: bool)
        requires
            index < self@.len(),
        ensures
            answer == offered(self@[index as int], scope),
    {
        let command = &self.commands[index];
        let ghost model = self@[index as int];
        assert(model == command@);
        if command.keys.len() == 0 {
            return false;
        }
        let in_panel = match scope {
            CommandScope::ResourcePanel(_) => true,
            _ => false,
        };
        let mut i: usize = 0;
        while i < command.scopes.len()
            invariant
                i <= command.scopes.len(),
                model == command@,
                model == self@[index as int],
                command.keys.len() > 0,
                in_panel == scope is ResourcePanel,
                forall|j: int|
                    0 <= j < i ==> !(#[trigger] command.scopes@[j] == scope || (command.scopes@[j]
                        == CommandScope::ResourceView && in_panel)),
            decreases command.scopes.len() - i,
        {
            let registered = command.scopes[i];
            if registered == scope || (registered == CommandScope::ResourceView && in_panel) {
                assert(answers_in(model.scopes, scope)) by {
                    assert(model.scopes[i as int] == registered);
                }
                return true;
            }
            i = i + 1;
        }
        false
    }

    /// Resolves a pressed key to the Command registered for `scope`.
    pub fn resolve(&self, scope: CommandScope, key: Key) -> (command: Option<Command>)
        ensures
            command == resolved(self@, scope, key),
    {
        let mut i: usize = 0;
        assert(self@.skip(0) =~= self@);
        while i < self.commands.len()
            invariant
                i <= self.commands.len(),
                self@ == views(self.commands@),
                resolved(self@, scope, key) == resolved(self@.skip(i as int), scope, key),
            decreases self.commands.len() - i,
        {
            assert(self@.skip(i as int)[0] == self.commands@[i as int]@);
            assert(self@.skip(i as int).drop_first() =~= self@.skip(i + 1));
            if self.is_offered(i, scope) && contains_key(&self.commands[i].keys, key) {
                return Some(self.commands[i].command);
            }
            i = i + 1;
        }
        None
    }

    /// The bound Commands registered for `scope`, in registration order.
    ///
    /// Unbound Commands are omitted: they are not controls the user has.
    pub fn in_scope(&self, scope: CommandScope) -> (commands: Vec<&EffectiveCommand>)
        ensures
            views(commands@) == offered_in(self@, scope),
    {
        let mut commands: Vec<&EffectiveCommand> = Vec::new();
        let ghost registry = self@;
        let mut i: usize = 0;
        assert(views(commands@) =~= Seq::<CommandModel>::empty());
        while i < self.commands.len()
            invariant
                i <= self.commands.len(),
                registry == self@,
                registry == views(self.commands@),
                views(commands@) == offered_in(registry.take(i as int), scope),
            decreases self.commands.len() - i,
        {
            proof {
                assert(registry.take(i + 1).drop_last() =~= registry.take(i as int));
                assert(registry.take(i + 1).last() == self.commands@[i as int]@);
            }
            if self.is_offered(i, scope) {
                let ghost before = commands@;
                commands.push(&self.commands[i]);
                assert(views(commands@) =~= views(before).push(registry[i as int]));
            }
            i = i + 1;
        }
        assert(registry.take(i as int) =~= registry);
        commands
    }

    /// The preferred inline hint for `command`, or `None` when it is unbound.
    pub fn first_key(&self, command: Command) -> (key: Option<Key>)
        ensures
            key == hint(self@, command),
    {
        let ghost commands = commands_of(self@);
        let mut i: usize = 0;
        while i < self.commands.len()
            invariant
                i <= self.commands.len(),
                commands == commands_of(self@),
                self@ == views(self.commands@),
                forall|j: int| 0 <= j < i ==> commands[j] != command,
            decreases self.commands.len() - i,
        {
            assert(commands[i as int] == self.commands@[i as int].command);
            if self.commands[i].command == command {
                proof {
                    lemma_first_position_found(commands, command, i as int);
                    assert(self@[i as int] == self.commands@[i as int]@);
                }
                if self.commands[i].keys.len() == 0 {
                    return None;
                }
                return Some(self.commands[i].keys[0]);
            }
            i = i + 1;
        }
        proof {
            lemma_first_position_none(commands, command);
        }
        None
    }
}

fn copy_scopes(scopes: &Vec<CommandScope>) -> (copy: Vec<CommandScope>)
    ensures
        copy@ == scopes@,
{
    let mut copy: Vec<CommandScope> = Vec::new();
    let mut i: usize = 0;
    while i < scopes.len()
        invariant
            i <= scopes.len(),
            copy@ == scopes@.take(i as int),
        decreases scopes.len() - i,
    {
        copy.push(scopes[i]);
        i = i + 1;
        assert(scopes@.take(i as int) =~= scopes@.take(i - 1).push(scopes@[i - 1]));
    }
    assert(scopes@.take(i as int) =~= scopes@);
    copy
}

fn copy_keys(keys: &Vec<Key>) -> (copy: Vec<Key>)
    ensures
        copy@ == keys@,
{
    let mut copy: Vec<Key> = Vec::new();
    let mut i: usize = 0;
    while i < keys.len()
        invariant
            i <= keys.len(),
            copy@ == keys@.take(i as int),
        decreases keys.len() - i,
    {
        copy.push(keys[i]);
        i = i + 1;
        assert(keys@.take(i as int) =~= keys@.take(i - 1).push(keys@[i - 1]));
    }
    assert(keys@.take(i as int) =~= keys@);
    copy
}

} // verus!
