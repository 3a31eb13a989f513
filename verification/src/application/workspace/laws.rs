//! What every operation on a Provider Workspace keeps.

use vstd::prelude::*;

use super::model::{
    find_navigation, first_panel, keeps_tab, kept_tab, moved_navigation, navigation_ids,
    parts_between, precedes, reconciled_navigation, reconciled_navigations, selection_end,
    selection_start, selection_text, CompletionModel, ContentModel, DetailsModel, LoadModel,
    NavigationModel, TabModel, WorkspaceModel,
};
use super::{DetailPosition, DetailSelection};
use crate::application::provider::{
    find_panel, panel_ids, resource_ids, view_ids, PanelModel, ProviderRequestId,
};
use crate::steps::law_ring_steps_undo_each_other;
use crate::text::{first_position, get, joined, lemma_first_position, lemma_first_position_found};

verus! {

/// A panel's navigation points at one of the panel's Resources, and at none
/// only where the panel is empty.
pub open spec fn entry_fits(entry: NavigationModel, panel: PanelModel) -> bool {
    &&& entry.panel_id == panel.id
    &&& panel.resources.len() == 0 ==> entry.selected_resource is None && entry.selected_index == 0
    &&& panel.resources.len() > 0 ==> 0 <= entry.selected_index < panel.resources.len()
        && entry.selected_resource == Some(panel.resources[entry.selected_index].id)
}

impl WorkspaceModel {
    /// Every presentation choice of a ready Workspace fits its snapshot.
    pub open spec fn consistent(self) -> bool {
        self.load_state matches LoadModel::Ready(panels) ==> {
            &&& self.panel_navigation.len() == panels.len()
            &&& forall|i: int|
                0 <= i < panels.len() ==> entry_fits(#[trigger] self.panel_navigation[i], panels[i])
            &&& match self.focused_resource_panel {
                Some(id) => panel_ids(panels).contains(id),
                None => panels.len() == 0,
            }
            &&& keeps_tab(self.focused_panel(), self.selected_tab)
        }
    }
}

proof fn lemma_ids_agree(w: WorkspaceModel, panels: Seq<PanelModel>)
    requires
        w.load_state == LoadModel::Ready(panels),
        w.consistent(),
    ensures
        navigation_ids(w.panel_navigation) == panel_ids(panels),
{
    assert forall|i: int| 0 <= i < panels.len() implies navigation_ids(w.panel_navigation)[i]
        == panel_ids(panels)[i] by {
        assert(entry_fits(w.panel_navigation[i], panels[i]));
    }
    assert(navigation_ids(w.panel_navigation) =~= panel_ids(panels));
}

proof fn lemma_reconciled_entry_fits(previous: Seq<NavigationModel>, panel: PanelModel)
    ensures
        entry_fits(reconciled_navigation(previous, panel), panel),
{
    let remembered = match find_navigation(previous, panel.id) {
        Some(entry) => entry.selected_resource,
        None => None,
    };
    let ids = resource_ids(panel.resources);
    if let Some(id) = remembered {
        lemma_first_position(ids, id);
    }
    if panel.resources.len() > 0 {
        assert(ids[0] == panel.resources[0].id);
        lemma_first_position(ids, panel.resources[0].id);
    }
}

proof fn lemma_moved_entry_fits(entry: NavigationModel, panel: PanelModel, delta: int)
    requires
        entry.panel_id == panel.id,
    ensures
        entry_fits(moved_navigation(entry, panel, delta), panel),
{
    if let Some(id) = entry.selected_resource {
        lemma_first_position(resource_ids(panel.resources), id);
    }
}

/// Refusing a pending load touches nothing but the details.
proof fn lemma_settling_touches_details_only(w: WorkspaceModel, before: WorkspaceModel)
    ensures
        w.settled_since(before) == (WorkspaceModel {
            details: w.settled_since(before).details,
            ..w
        }),
        w.consistent() ==> w.settled_since(before).consistent(),
{
    let s = w.settled_since(before);
    assert(s.focused_panel() == w.focused_panel());
}

/// A refresh makes every presentation choice fit its snapshot, whatever the
/// Workspace was before.
pub proof fn law_reconciling_makes_choices_fit(w: WorkspaceModel, panels: Seq<PanelModel>)
    ensures
        w.reconciled(panels).consistent(),
{
    let navigation = reconciled_navigations(w.panel_navigation, panels);
    let focused = match w.focused_resource_panel {
        Some(id) => if panel_ids(panels).contains(id) {
            Some(id)
        } else {
            first_panel(panels)
        },
        None => first_panel(panels),
    };
    let navigated = WorkspaceModel {
        panel_navigation: navigation,
        focused_resource_panel: focused,
        ..w
    };
    let tab = kept_tab(
        match navigated.selected_target() {
            Some(target) => find_panel(panels, target.panel_id),
            None => None,
        },
        w.selected_tab,
    );
    let ready = WorkspaceModel {
        load_state: LoadModel::Ready(panels),
        selected_tab: tab,
        ..navigated
    };
    assert forall|i: int| 0 <= i < panels.len() implies entry_fits(
        #[trigger] ready.panel_navigation[i],
        panels[i],
    ) by {
        lemma_reconciled_entry_fits(w.panel_navigation, panels[i]);
    }
    if panels.len() > 0 {
        assert(panel_ids(panels)[0] == panels[0].id);
    }
    assert(keeps_tab(ready.focused_panel(), ready.selected_tab));
    assert(ready.consistent());
    lemma_settling_touches_details_only(ready, w);
}

/// Focusing a panel keeps every choice fitting.
pub proof fn law_focusing_keeps_choices_fitting(w: WorkspaceModel, panel_id: Seq<char>)
    requires
        w.consistent(),
    ensures
        w.with_focus(panel_id).consistent(),
{
    if w.can_focus(panel_id) {
        let panels = w.load_state->Ready_0;
        let focused = WorkspaceModel {
            focused_resource_panel: Some(panel_id),
            selected_tab: kept_tab(find_panel(panels, panel_id), w.selected_tab),
            ..w
        };
        assert(focused.focused_panel() == find_panel(panels, panel_id));
        assert(focused.consistent());
        lemma_settling_touches_details_only(focused, w);
    }
}

/// Moving a selection keeps every choice fitting.
pub proof fn law_moving_keeps_choices_fitting(w: WorkspaceModel, panel_id: Seq<char>, delta: int)
    requires
        w.consistent(),
    ensures
        w.with_moved_selection(panel_id, delta).consistent(),
{
    if let LoadModel::Ready(panels) = w.load_state {
        lemma_ids_agree(w, panels);
        lemma_first_position(panel_ids(panels), panel_id);
        if let Some(index) = first_position(navigation_ids(w.panel_navigation), panel_id) {
            let moved = moved_navigation(w.panel_navigation[index], panels[index], delta);
            assert(entry_fits(w.panel_navigation[index], panels[index]));
            lemma_moved_entry_fits(w.panel_navigation[index], panels[index], delta);
            let after = w.with_navigation(index, moved);
            assert(after.focused_panel() == w.focused_panel());
            assert(after.consistent());
            lemma_settling_touches_details_only(after, w);
        }
    }
}

/// Selecting a Resource by its position keeps every choice fitting.
pub proof fn law_selecting_keeps_choices_fitting(w: WorkspaceModel, index: int)
    requires
        w.consistent(),
    ensures
        w.with_resource_selected_at(index).consistent(),
{
    if let (LoadModel::Ready(panels), Some(panel_id)) = (w.load_state, w.focused_resource_panel) {
        lemma_ids_agree(w, panels);
        lemma_first_position(panel_ids(panels), panel_id);
        if let Some(entry) = first_position(navigation_ids(w.panel_navigation), panel_id) {
            assert(entry_fits(w.panel_navigation[entry], panels[entry]));
            if let Some(resource) = get(panels[entry].resources, index) {
                let selected = NavigationModel {
                    selected_resource: Some(resource.id),
                    selected_index: index,
                    ..w.panel_navigation[entry]
                };
                let after = w.with_navigation(entry, selected);
                assert(after.focused_panel() == w.focused_panel());
                assert(after.consistent());
                lemma_settling_touches_details_only(after, w);
            }
        }
    }
}

proof fn lemma_offered_tabs_are_kept(w: WorkspaceModel, i: int)
    requires
        0 <= i < w.tabs().len(),
    ensures
        keeps_tab(w.focused_panel(), w.tabs()[i]),
{
    let panel = w.focused_panel()->0;
    if let TabModel::View(id) = w.tabs()[i] {
        assert(view_ids(panel.detail_views)[i - 1] == id);
    }
}

/// Choosing a tab, by a step around the ring, by its position, or by asking
/// for the shell, keeps every choice fitting.
pub proof fn law_choosing_a_tab_keeps_choices_fitting(w: WorkspaceModel, delta: int, index: int)
    requires
        w.consistent(),
    ensures
        w.with_tab_moved(delta).consistent(),
        w.with_tab_selected_at(index).consistent(),
        w.with_shell_tab().consistent(),
{
    let tabs = w.tabs();
    if tabs.len() > 0 {
        lemma_first_position(tabs, w.selected_tab);
        let current = match first_position(tabs, w.selected_tab) {
            Some(i) => i,
            None => 0,
        };
        let next = (current + delta) % (tabs.len() as int);
        lemma_offered_tabs_are_kept(w, next);
        let moved = WorkspaceModel { selected_tab: tabs[next], ..w };
        assert(moved.focused_panel() == w.focused_panel());
        lemma_settling_touches_details_only(moved, w);
        let chosen = match get(tabs, index) {
            Some(tab) => tab,
            None => TabModel::Overview,
        };
        if 0 <= index < tabs.len() {
            lemma_offered_tabs_are_kept(w, index);
        }
        let selected = WorkspaceModel { selected_tab: chosen, ..w };
        assert(selected.focused_panel() == w.focused_panel());
        lemma_settling_touches_details_only(selected, w);
    }
    let shell = WorkspaceModel { selected_tab: TabModel::Shell, ..w };
    assert(shell.focused_panel() == w.focused_panel());
    lemma_settling_touches_details_only(shell, w);
}

/// Nothing that happens to Details content disturbs a presentation choice.
pub proof fn law_details_leave_choices_alone(
    w: WorkspaceModel,
    request_id: ProviderRequestId,
    completion: CompletionModel,
    delta: int,
    line: u16,
    column: u16,
)
    requires
        w.consistent(),
    ensures
        w.with_visible_details(request_id).consistent(),
        w.with_completion(completion).consistent(),
        w.with_details_scrolled(delta).consistent(),
        w.with_selection_begun(line, column).consistent(),
        w.with_selection_extended(line, column).consistent(),
        w.without_selection().consistent(),
        w.without_pending_detail().consistent(),
{
    assert(w.with_visible_details(request_id).focused_panel() == w.focused_panel());
    assert(w.with_completion(completion).focused_panel() == w.focused_panel());
    assert(w.with_details_scrolled(delta).focused_panel() == w.focused_panel());
    assert(w.with_selection_begun(line, column).focused_panel() == w.focused_panel());
    assert(w.with_selection_extended(line, column).focused_panel() == w.focused_panel());
    assert(w.without_selection().focused_panel() == w.focused_panel());
    assert(w.without_pending_detail().focused_panel() == w.focused_panel());
}

/// Where a refresh leaves the focus and the selections.
proof fn lemma_reconciled_choices(w: WorkspaceModel, panels: Seq<PanelModel>)
    ensures
        w.reconciled(panels).panel_navigation == reconciled_navigations(
            w.panel_navigation,
            panels,
        ),
        w.reconciled(panels).focused_resource_panel == (match w.focused_resource_panel {
            Some(id) => if panel_ids(panels).contains(id) {
                Some(id)
            } else {
                first_panel(panels)
            },
            None => first_panel(panels),
        }),
{
}

proof fn lemma_remembered_selection(
    previous: Seq<NavigationModel>,
    panel: PanelModel,
    selected: Seq<char>,
)
    requires
        find_navigation(previous, panel.id) matches Some(entry) && entry.selected_resource == Some(
            selected,
        ),
        resource_ids(panel.resources).contains(selected),
    ensures
        reconciled_navigation(previous, panel).selected_resource == Some(selected),
{
    lemma_first_position(resource_ids(panel.resources), selected);
}

/// A refresh preserves every still-valid choice: a panel that still exists
/// keeps focus, and a panel that still holds the Resource it had selected
/// keeps it selected.
pub proof fn law_reconciling_preserves_valid_choices(
    w: WorkspaceModel,
    panels: Seq<PanelModel>,
    i: int,
)
    requires
        0 <= i < panels.len(),
    ensures
        w.focused_resource_panel matches Some(id) ==> (panel_ids(panels).contains(id)
            ==> w.reconciled(panels).focused_resource_panel == Some(id)),
        find_navigation(w.panel_navigation, panels[i].id) matches Some(entry) ==> (
        entry.selected_resource matches Some(selected) ==> (resource_ids(
            panels[i].resources,
        ).contains(selected) ==> w.reconciled(panels).panel_navigation[i].selected_resource
            == Some(selected))),
{
    lemma_reconciled_choices(w, panels);
    let after = w.reconciled(panels).panel_navigation;
    assert(after[i] == reconciled_navigation(w.panel_navigation, panels[i]));
    if let Some(entry) = find_navigation(w.panel_navigation, panels[i].id) {
        if let Some(selected) = entry.selected_resource {
            if resource_ids(panels[i].resources).contains(selected) {
                lemma_remembered_selection(w.panel_navigation, panels[i], selected);
            }
        }
    }
}

/// A failed refresh keeps every presentation choice for the next one that
/// succeeds.
pub proof fn law_load_errors_keep_choices(w: WorkspaceModel, message: Seq<char>)
    ensures
        w.with_load_error(message).focused_resource_panel == w.focused_resource_panel,
        w.with_load_error(message).panel_navigation == w.panel_navigation,
        w.with_load_error(message).selected_tab == w.selected_tab,
        w.with_load_error(message).load_state == LoadModel::Error(message),
{
}

/// Moving the selection of one panel leaves every other panel's alone.
pub proof fn law_other_panels_keep_their_selection(
    w: WorkspaceModel,
    panel_id: Seq<char>,
    delta: int,
    i: int,
)
    requires
        0 <= i < w.panel_navigation.len(),
        w.panel_navigation[i].panel_id != panel_id,
    ensures
        w.with_moved_selection(panel_id, delta).panel_navigation[i] == w.panel_navigation[i],
        w.with_moved_selection(panel_id, delta).focused_resource_panel == w.focused_resource_panel,
{
    let ids = navigation_ids(w.panel_navigation);
    lemma_first_position(ids, panel_id);
    assert(ids[i] == w.panel_navigation[i].panel_id);
}

/// Moving a panel that is only pointed at cannot abandon the focused
/// Resource's detail load.
pub proof fn law_pointing_elsewhere_keeps_details(w: WorkspaceModel, panel_id: Seq<char>, delta: int)
    requires
        w.focused_resource_panel != Some(panel_id),
    ensures
        w.with_moved_selection(panel_id, delta).details == w.details,
        w.with_moved_selection(panel_id, delta).visible_identity() == w.visible_identity(),
{
    let ids = navigation_ids(w.panel_navigation);
    lemma_first_position(ids, panel_id);
    if let (LoadModel::Ready(panels), Some(index)) = (w.load_state, first_position(ids, panel_id)) {
        if let Some(panel) = find_panel(panels, panel_id) {
            let moved = moved_navigation(w.panel_navigation[index], panel, delta);
            let after = w.with_navigation(index, moved);
            assert(moved.panel_id == w.panel_navigation[index].panel_id);
            assert(ids[index] == w.panel_navigation[index].panel_id);
            assert(navigation_ids(after.panel_navigation) =~= ids);
            if let Some(focused) = w.focused_resource_panel {
                lemma_first_position(ids, focused);
            }
            assert(after.selected_target() == w.selected_target());
        }
    }
}

/// The tabs are a ring: one step on and one step back is where one started.
pub proof fn law_tabs_are_a_ring(w: WorkspaceModel, delta: int)
    requires
        w.tabs().no_duplicates(),
        w.tabs().contains(w.selected_tab),
    ensures
        w.with_tab_moved(delta).with_tab_moved(-delta).selected_tab == w.selected_tab,
{
    let tabs = w.tabs();
    let n = tabs.len() as int;
    lemma_first_position(tabs, w.selected_tab);
    let current = first_position(tabs, w.selected_tab)->0;
    let next = (current + delta) % n;
    let moved = w.with_tab_moved(delta);
    assert(moved.tabs() == tabs) by {
        assert(moved.focused_panel() == w.focused_panel());
        assert(moved.selected_target() == w.selected_target());
        assert(moved.selected_resource() == w.selected_resource());
    }
    assert(moved.selected_tab == tabs[next]);
    assert forall|j: int| 0 <= j < next implies tabs[j] != tabs[next] by {}
    lemma_first_position_found(tabs, tabs[next], next);
    law_ring_steps_undo_each_other(current, delta, n);
}

/// A completion that the visible load does not await changes nothing.
pub proof fn law_stale_completions_change_nothing(w: WorkspaceModel, completion: CompletionModel)
    requires
        !(w.details matches Some(details) && details.awaits(completion.load)),
    ensures
        w.with_completion(completion) == w,
{
}

/// What is held of Details always describes what is on screen, and a view that
/// is already loaded or pending is not asked for again.
pub proof fn law_details_describe_the_screen(
    w: WorkspaceModel,
    first: ProviderRequestId,
    second: ProviderRequestId,
)
    ensures
        w.with_visible_details(first).details is Some ==> w.with_visible_details(
            first,
        ).describes_visible(),
        w.with_visible_details(first).detail_load(second) is None,
        w.with_visible_details(first).with_visible_details(second) == w.with_visible_details(first),
{
    let after = w.with_visible_details(first);
    assert(after.selected_target() == w.selected_target());
    assert(after.visible_identity() == w.visible_identity());
    assert(after.detail_target() == w.detail_target());
}

/// The completion of the load that was asked for is what the screen shows.
pub proof fn law_an_awaited_completion_is_shown(
    w: WorkspaceModel,
    request_id: ProviderRequestId,
    result: Result<Seq<Seq<char>>, Seq<char>>,
)
    requires
        w.detail_load(request_id) is Some,
    ensures
        ({
            let load = w.detail_load(request_id)->0;
            let shown = w.with_visible_details(request_id).with_completion(
                CompletionModel { load, result },
            );
            shown.details matches Some(details) && details.request_id is None && details.target
                == load.target && details.content == (match result {
                Ok(lines) => ContentModel::Ready(lines),
                Err(message) => ContentModel::Error(message),
            })
        }),
{
}

/// Leaving the visible view while it loads makes its result unwelcome.
pub proof fn law_leaving_a_view_refuses_its_result(w: WorkspaceModel, after: WorkspaceModel)
    requires
        w.details matches Some(details) && details.content is Loading,
        after.details == w.details,
        after.visible_identity() != w.visible_identity(),
    ensures
        after.settled_since(w).details is None,
{
}

/// Scrolling never runs past the content, on content that a screen's columns
/// can count.
pub proof fn law_scrolling_stays_inside_the_content(details: DetailsModel, delta: int)
    requires
        details.last_line() < 0x10000,
    ensures
        0 <= details.scrolled(delta).scroll <= details.last_line(),
{
}

/// The text that a selection covers does not depend on the end it was begun
/// from.
pub proof fn law_selection_has_no_direction(lines: Seq<Seq<char>>, selection: DetailSelection)
    ensures
        selection_text(lines, selection) == selection_text(
            lines,
            DetailSelection { start: selection.end, end: selection.start },
        ),
{
}

/// How often a text breaks into a new line.
pub open spec fn line_breaks(text: Seq<char>) -> nat
    decreases text.len(),
{
    if text.len() == 0 {
        0
    } else {
        line_breaks(text.drop_last()) + (if text.last() == '\n' {
            1nat
        } else {
            0
        })
    }
}

proof fn lemma_line_breaks_add(first: Seq<char>, second: Seq<char>)
    ensures
        line_breaks(first + second) == line_breaks(first) + line_breaks(second),
    decreases second.len(),
{
    if second.len() == 0 {
        assert(first + second =~= first);
    } else {
        assert((first + second).drop_last() =~= first + second.drop_last());
        lemma_line_breaks_add(first, second.drop_last());
    }
}

proof fn lemma_no_line_breaks(text: Seq<char>)
    requires
        !text.contains('\n'),
    ensures
        line_breaks(text) == 0,
    decreases text.len(),
{
    if text.len() > 0 {
        assert(text[text.len() - 1] != '\n');
        assert forall|i: int| 0 <= i < text.drop_last().len() implies text.drop_last()[i]
            != '\n' by {
            assert(text[i] != '\n');
        }
        lemma_no_line_breaks(text.drop_last());
    }
}

proof fn lemma_joining_breaks_between_parts(parts: Seq<Seq<char>>)
    requires
        parts.len() > 0,
        forall|i: int| 0 <= i < parts.len() ==> !(#[trigger] parts[i]).contains('\n'),
    ensures
        line_breaks(joined(parts, "\n"@)) == parts.len() - 1,
    decreases parts.len(),
{
    reveal_strlit("\n");
    lemma_no_line_breaks(parts.last());
    if parts.len() > 1 {
        let earlier = parts.drop_last();
        assert forall|i: int| 0 <= i < earlier.len() implies !(#[trigger] earlier[i]).contains(
            '\n',
        ) by {
            assert(earlier[i] == parts[i]);
        }
        lemma_joining_breaks_between_parts(earlier);
        let separator = "\n"@;
        assert(separator =~= seq!['\n']);
        assert(separator.drop_last() =~= Seq::<char>::empty());
        assert(line_breaks(separator) == 1) by {
            reveal_with_fuel(line_breaks, 2);
        }
        lemma_line_breaks_add(joined(earlier, separator), separator);
        lemma_line_breaks_add(joined(earlier, separator) + separator, parts.last());
    }
}

/// The lines between two positions: whole, but for what comes before the first
/// position and what comes from the second one on.
pub open spec fn lines_between(
    lines: Seq<Seq<char>>,
    start: DetailPosition,
    end: DetailPosition,
) -> Seq<Seq<char>> {
    Seq::new(
        (end.line - start.line + 1) as nat,
        |i: int|
            {
                let whole = lines[start.line + i];
                if start.line == end.line {
                    whole.subrange(start.column as int, end.column as int)
                } else if i == 0 {
                    whole.skip(start.column as int)
                } else if i == end.line - start.line {
                    whole.take(end.column as int)
                } else {
                    whole
                }
            },
    )
}

impl WorkspaceModel {
    /// The text that is selected once a selection was begun at one position of
    /// the viewport and carried to another.
    pub open spec fn text_selected(
        self,
        from_line: u16,
        from_column: u16,
        to_line: u16,
        to_column: u16,
    ) -> Option<Seq<char>> {
        self.with_selection_begun(from_line, from_column).with_selection_extended(
            to_line,
            to_column,
        ).selected_text()
    }
}

/// Selecting Details text between two positions of the loaded content.
///
/// The text is the same whichever position the selection was begun at. There is
/// none exactly where both positions name the same place, columns being held
/// inside their lines. Otherwise it reads from the earlier position up to, and
/// without, the character at the later one: every line that lies between the
/// two is whole.
pub proof fn law_selected_text_reads_between_its_ends(
    w: WorkspaceModel,
    lines: Seq<Seq<char>>,
    from_line: u16,
    from_column: u16,
    to_line: u16,
    to_column: u16,
)
    requires
        w.details matches Some(details) && details.content == ContentModel::Ready(lines)
            && details.position_at(from_line, from_column) is Some && details.position_at(
            to_line,
            to_column,
        ) is Some,
    ensures
        ({
            let text = w.text_selected(from_line, from_column, to_line, to_column);
            let from = w.details->0.position_at(from_line, from_column)->0;
            let to = w.details->0.position_at(to_line, to_column)->0;
            let selection = DetailSelection { start: from, end: to };
            let start = selection_start(selection);
            let end = selection_end(selection);
            &&& text == w.text_selected(to_line, to_column, from_line, from_column)
            &&& text is None <==> from == to
            &&& text is Some ==> text == Some(joined(lines_between(lines, start, end), "\n"@))
        }),
{
    let details = w.details->0;
    let from = details.position_at(from_line, from_column)->0;
    let to = details.position_at(to_line, to_column)->0;
    let selection = DetailSelection { start: from, end: to };
    let reversed = DetailSelection { start: to, end: from };
    let text = w.text_selected(from_line, from_column, to_line, to_column);
    assert(text == selection_text(lines, selection));
    assert(w.text_selected(to_line, to_column, from_line, from_column) == selection_text(
        lines,
        reversed,
    ));
    law_selection_has_no_direction(lines, selection);
    let start = selection_start(selection);
    let end = selection_end(selection);
    assert(start.column <= lines[start.line as int].len());
    assert(end.column <= lines[end.line as int].len());
    assert(parts_between(lines, start, end) =~= lines_between(lines, start, end)) by {
        assert forall|i: int| 0 <= i < end.line - start.line + 1 implies parts_between(
            lines,
            start,
            end,
        )[i] == lines_between(lines, start, end)[i] by {
            assert(parts_between(lines, start, end)[i] =~= lines_between(lines, start, end)[i]);
        }
    }
}

/// Selected Details text breaks once for each line that it crosses.
pub proof fn law_selected_text_breaks_once_a_line(
    w: WorkspaceModel,
    lines: Seq<Seq<char>>,
    from_line: u16,
    from_column: u16,
    to_line: u16,
    to_column: u16,
)
    requires
        w.details matches Some(details) && details.content == ContentModel::Ready(lines)
            && details.position_at(from_line, from_column) is Some && details.position_at(
            to_line,
            to_column,
        ) is Some,
        forall|i: int| 0 <= i < lines.len() ==> !(#[trigger] lines[i]).contains('\n'),
    ensures
        w.text_selected(from_line, from_column, to_line, to_column) matches Some(text) ==> ({
            let from = w.details->0.position_at(from_line, from_column)->0.line;
            let to = w.details->0.position_at(to_line, to_column)->0.line;
            line_breaks(text) == (if from <= to {
                to - from
            } else {
                from - to
            })
        }),
{
    law_selected_text_reads_between_its_ends(
        w,
        lines,
        from_line,
        from_column,
        to_line,
        to_column,
    );
    let selection = DetailSelection {
        start: w.details->0.position_at(from_line, from_column)->0,
        end: w.details->0.position_at(to_line, to_column)->0,
    };
    let start = selection_start(selection);
    let end = selection_end(selection);
    assert(start.column <= lines[start.line as int].len());
    assert(end.column <= lines[end.line as int].len());
    lemma_parts_hold_no_breaks(lines, start, end);
    lemma_joining_breaks_between_parts(lines_between(lines, start, end));
}

proof fn lemma_parts_hold_no_breaks(
    lines: Seq<Seq<char>>,
    start: DetailPosition,
    end: DetailPosition,
)
    requires
        precedes(start, end),
        end.line < lines.len(),
        start.column <= lines[start.line as int].len(),
        end.column <= lines[end.line as int].len(),
        forall|i: int| 0 <= i < lines.len() ==> !(#[trigger] lines[i]).contains('\n'),
    ensures
        forall|i: int|
            0 <= i < lines_between(lines, start, end).len() ==> !(#[trigger] lines_between(
                lines,
                start,
                end,
            )[i]).contains('\n'),
{
    let parts = lines_between(lines, start, end);
    assert forall|i: int| 0 <= i < parts.len() implies !(#[trigger] parts[i]).contains('\n') by {
        let whole = lines[start.line + i];
        assert(!whole.contains('\n'));
        assert forall|j: int| 0 <= j < parts[i].len() implies parts[i][j] != '\n' by {
            let offset = if i == 0 {
                start.column as int
            } else {
                0
            };
            assert(parts[i][j] == whole[offset + j]);
        }
    }
}

} // verus!
