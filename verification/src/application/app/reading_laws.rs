//! Selecting and copying what the Details show.

use vstd::prelude::*;

use super::command_laws::{lemma_followed, lemma_left, lemma_replaced, reads, same_surroundings};
use super::effect_laws::lemma_surroundings;
use super::model::AppModel;
use super::state::{FocusedPane, StateModel};
use crate::application::command::Command;
use crate::application::workspace::model::{
    parts_between, ContentModel, DetailsModel, WorkspaceModel,
};
use crate::application::workspace::{DetailPosition, DetailSelection};
use crate::text::joined;

verus! {

/// The place in the content under a place of the screen: as far down as the
/// details are scrolled, and no further right than the line goes.
pub open spec fn place(details: DetailsModel, lines: Seq<Seq<char>>, line: u16, column: u16) -> DetailPosition {
    DetailPosition {
        line: (details.scroll + line) as u16,
        column: if column < lines[details.scroll + line].len() {
            column
        } else {
            lines[details.scroll + line].len() as u16
        },
    }
}

/// Whether there is content under a line of the screen.
pub open spec fn is_below(details: DetailsModel, lines: Seq<Seq<char>>, line: u16) -> bool {
    details.scroll + line < lines.len() && lines[details.scroll + line].len() < 65536
}

/// Whether an application is another one with the details changed.
pub open spec fn shows_details(
    after: AppModel,
    before: AppModel,
    workspace: WorkspaceModel,
    details: DetailsModel,
    pane: FocusedPane,
) -> bool {
    &&& after.active_workspace() == Some(WorkspaceModel { details: Some(details), ..workspace })
    &&& same_surroundings(
        after,
        AppModel { state: StateModel { focused_pane: pane, ..before.state }, ..before },
    )
}

proof fn lemma_settled(workspace: WorkspaceModel, details: DetailsModel, changed: DetailsModel)
    requires
        workspace.details == Some(details),
        workspace.visible_identity() == Some(details.target),
        workspace.detail_target() is Some,
        changed.target == details.target,
    ensures
        ({
            let after = WorkspaceModel { details: Some(changed), ..workspace };
            &&& after.visible_identity() == Some(changed.target)
            &&& after.detail_target() is Some
            &&& after.describes_visible()
        }),
{
}

/// A selection begins where it was pressed, and the Details have the focus.
pub proof fn law_a_selection_begins_where_it_was_pressed(
    app: AppModel,
    workspace: WorkspaceModel,
    details: DetailsModel,
    lines: Seq<Seq<char>>,
    line: u16,
    column: u16,
)
    requires
        app.active_workspace() == Some(workspace),
        reads(workspace, details, lines),
        is_below(details, lines, line),
    ensures
        shows_details(
            app.invoked(Command::BeginDetailsSelection { line, column }).0,
            app,
            workspace,
            DetailsModel {
                selection: Some(
                    DetailSelection {
                        start: place(details, lines, line, column),
                        end: place(details, lines, line, column),
                    },
                ),
                ..details
            },
            FocusedPane::Details,
        ),
{
    let command = Command::BeginDetailsSelection { line, column };
    lemma_left(app, workspace, command);
    let left = app.selection_left(command);
    let position = place(details, lines, line, column);
    let changed = DetailsModel {
        selection: Some(DetailSelection { start: position, end: position }),
        ..details
    };
    let begun = workspace.with_selection_begun(line, column);
    assert(begun == (WorkspaceModel { details: Some(changed), ..workspace }));
    reveal(AppModel::dispatched);
    reveal(AppModel::carried_out);
    reveal(AppModel::selection_begun);
    lemma_replaced(left.with_focused_pane(FocusedPane::Details), workspace, begun);
    lemma_settled(workspace, details, changed);
    lemma_followed(app.dispatched(command), begun);
}

/// A selection reaches from where it began to where the pointer is.
pub proof fn law_a_selection_reaches_to_the_pointer(
    app: AppModel,
    workspace: WorkspaceModel,
    details: DetailsModel,
    lines: Seq<Seq<char>>,
    selection: DetailSelection,
    line: u16,
    column: u16,
)
    requires
        app.active_workspace() == Some(workspace),
        reads(workspace, details, lines),
        is_below(details, lines, line),
        details.selection == Some(selection),
    ensures
        shows_details(
            app.invoked(Command::ExtendDetailsSelection { line, column }).0,
            app,
            workspace,
            DetailsModel {
                selection: Some(
                    DetailSelection {
                        start: selection.start,
                        end: place(details, lines, line, column),
                    },
                ),
                ..details
            },
            app.state.focused_pane,
        ),
{
    let command = Command::ExtendDetailsSelection { line, column };
    lemma_left(app, workspace, command);
    let left = app.selection_left(command);
    let changed = DetailsModel {
        selection: Some(
            DetailSelection {
                start: selection.start,
                end: place(details, lines, line, column),
            },
        ),
        ..details
    };
    let extended = workspace.with_selection_extended(line, column);
    assert(extended == (WorkspaceModel { details: Some(changed), ..workspace }));
    reveal(AppModel::dispatched);
    reveal(AppModel::carried_out);
    reveal(AppModel::selection_extended);
    lemma_replaced(left, workspace, extended);
    lemma_settled(workspace, details, changed);
    lemma_followed(app.dispatched(command), extended);
}

/// Past an edge of the screen the details scroll one line towards it, and the
/// selection reaches to the line at that edge.
pub proof fn law_a_selection_scrolls_past_the_edge(
    app: AppModel,
    workspace: WorkspaceModel,
    details: DetailsModel,
    lines: Seq<Seq<char>>,
    selection: DetailSelection,
    column: u16,
    visible_rows: u16,
)
    requires
        app.active_workspace() == Some(workspace),
        reads(workspace, details, lines),
        details.selection == Some(selection),
        visible_rows > 0,
    ensures
        ({
            let higher = DetailsModel { scroll: (details.scroll - 1) as u16, ..details };
            details.scroll > 0 && is_below(higher, lines, 0) ==> shows_details(
                app.invoked(
                    Command::ExtendDetailsSelectionAtEdge { above: true, column, visible_rows },
                ).0,
                app,
                workspace,
                DetailsModel {
                    selection: Some(
                        DetailSelection {
                            start: selection.start,
                            end: place(higher, lines, 0, column),
                        },
                    ),
                    ..higher
                },
                app.state.focused_pane,
            )
        }),
        ({
            let lower = DetailsModel { scroll: (details.scroll + 1) as u16, ..details };
            let bottom = (visible_rows - 1) as u16;
            details.scroll + 1 < lines.len() && is_below(lower, lines, bottom) ==> shows_details(
                app.invoked(
                    Command::ExtendDetailsSelectionAtEdge { above: false, column, visible_rows },
                ).0,
                app,
                workspace,
                DetailsModel {
                    selection: Some(
                        DetailSelection {
                            start: selection.start,
                            end: place(lower, lines, bottom, column),
                        },
                    ),
                    ..lower
                },
                app.state.focused_pane,
            )
        }),
{
    let higher = DetailsModel { scroll: (details.scroll - 1) as u16, ..details };
    if details.scroll > 0 && is_below(higher, lines, 0) {
        lemma_edge(
            app,
            workspace,
            details,
            lines,
            selection,
            true,
            column,
            visible_rows,
            higher,
            0,
        );
    }
    let lower = DetailsModel { scroll: (details.scroll + 1) as u16, ..details };
    let bottom = (visible_rows - 1) as u16;
    if details.scroll + 1 < lines.len() && is_below(lower, lines, bottom) {
        lemma_edge(
            app,
            workspace,
            details,
            lines,
            selection,
            false,
            column,
            visible_rows,
            lower,
            bottom,
        );
    }
}

proof fn lemma_edge(
    app: AppModel,
    workspace: WorkspaceModel,
    details: DetailsModel,
    lines: Seq<Seq<char>>,
    selection: DetailSelection,
    above: bool,
    column: u16,
    visible_rows: u16,
    scrolled: DetailsModel,
    line: u16,
)
    requires
        app.active_workspace() == Some(workspace),
        reads(workspace, details, lines),
        details.selection == Some(selection),
        visible_rows > 0,
        scrolled == (DetailsModel { scroll: scrolled.scroll, ..details }),
        above ==> scrolled.scroll == details.scroll - 1 && line == 0,
        !above ==> scrolled.scroll == details.scroll + 1 && line == visible_rows - 1,
        is_below(scrolled, lines, line),
    ensures
        shows_details(
            app.invoked(
                Command::ExtendDetailsSelectionAtEdge { above, column, visible_rows },
            ).0,
            app,
            workspace,
            DetailsModel {
                selection: Some(
                    DetailSelection {
                        start: selection.start,
                        end: place(scrolled, lines, line, column),
                    },
                ),
                ..scrolled
            },
            app.state.focused_pane,
        ),
{
    let command = Command::ExtendDetailsSelectionAtEdge { above, column, visible_rows };
    lemma_left(app, workspace, command);
    let left = app.selection_left(command);
    let delta: int = if above {
        -1
    } else {
        1
    };
    let moved = workspace.with_details_scrolled(delta);
    assert(moved == (WorkspaceModel { details: Some(scrolled), ..workspace }));
    let changed = DetailsModel {
        selection: Some(
            DetailSelection { start: selection.start, end: place(scrolled, lines, line, column) },
        ),
        ..scrolled
    };
    let extended = moved.with_selection_extended(line, column);
    assert(extended == (WorkspaceModel { details: Some(changed), ..workspace }));
    reveal(AppModel::dispatched);
    reveal(AppModel::carried_out);
    reveal(AppModel::selection_extended_at_edge);
    lemma_replaced(left, workspace, extended);
    lemma_settled(workspace, details, changed);
    lemma_followed(app.dispatched(command), extended);
}

/// Copying hands over the characters from the earlier end of the selection up
/// to the later one, whichever way it was made: of one line the part between
/// them; of several, the rest of the first, the whole lines between and the
/// start of the last. Without a selection nothing is handed over.
pub proof fn law_copying_hands_over_the_selected_text(
    app: AppModel,
    workspace: WorkspaceModel,
    details: DetailsModel,
    lines: Seq<Seq<char>>,
    first: DetailPosition,
    last: DetailPosition,
)
    requires
        app.active_workspace() == Some(workspace),
        workspace.details == Some(details),
        details.content == ContentModel::Ready(lines),
        first.line < lines.len(),
        last.line < lines.len(),
        first.column <= lines[first.line as int].len(),
        last.column <= lines[last.line as int].len(),
    ensures
        ({
            let after = app.invoked(Command::CopyDetails).0;
            let copied = after.state.pending_details_copy;
            &&& same_surroundings(
                after,
                AppModel {
                    state: StateModel { pending_details_copy: copied, ..app.state },
                    ..app
                },
            )
            &&& details.selection is None ==> copied is None
            &&& details.selection == Some(DetailSelection { start: first, end: first })
                ==> copied is None
            &&& first.line == last.line && first.column < last.column && (details.selection == Some(
                DetailSelection { start: first, end: last },
            ) || details.selection == Some(DetailSelection { start: last, end: first }))
                ==> copied == Some(
                lines[first.line as int].subrange(first.column as int, last.column as int),
            )
            &&& first.line < last.line && (details.selection == Some(
                DetailSelection { start: first, end: last },
            ) || details.selection == Some(DetailSelection { start: last, end: first })) ==> {
                &&& copied matches Some(text) && text == joined(
                    Seq::new(
                        (last.line - first.line + 1) as nat,
                        |i: int|
                            if i == 0 {
                                lines[first.line as int].skip(first.column as int)
                            } else if i == last.line - first.line {
                                lines[last.line as int].take(last.column as int)
                            } else {
                                lines[first.line + i]
                            },
                    ),
                    "\n"@,
                )
            }
        }),
{
    let command = Command::CopyDetails;
    lemma_left(app, workspace, command);
    reveal(AppModel::dispatched);
    reveal(AppModel::carried_out);
    reveal(AppModel::details_copied);
    lemma_surroundings(app.dispatched(command));
    if first.line <= last.line {
        let parts = parts_between(lines, first, last);
        if first.line == last.line {
            if first.column < last.column {
                let part = lines[first.line as int].subrange(
                    first.column as int,
                    last.column as int,
                );
                assert(parts =~= seq![part]);
                lemma_joined_alone(part);
            }
        } else {
            let expected = Seq::new(
                (last.line - first.line + 1) as nat,
                |i: int|
                    if i == 0 {
                        lines[first.line as int].skip(first.column as int)
                    } else if i == last.line - first.line {
                        lines[last.line as int].take(last.column as int)
                    } else {
                        lines[first.line + i]
                    },
            );
            assert forall|i: int| 0 <= i < parts.len() implies parts[i] == expected[i] by {
                assert(parts[i] =~= expected[i]);
            }
            assert(parts =~= expected);
        }
    }
}

proof fn lemma_joined_alone(part: Seq<char>)
    ensures
        joined(seq![part], "\n"@) == part,
{
    reveal_with_fuel(joined, 2);
    assert(joined(seq![part], "\n"@) =~= part);
}

} // verus!
