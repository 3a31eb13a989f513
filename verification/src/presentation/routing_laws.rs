//! What every gesture with the mouse means, region by region.

use vstd::prelude::*;

use super::geometry::{covers, Position, Rect};
use super::input::{
    logical_key, pointer_action, MouseAction, MouseInput, TerminalButton, TerminalKey,
    TerminalKeyCode, TerminalKeyKind, TerminalModifiers, TerminalMouseKind,
};
use super::mouse_routing::{first_covering, resource_covering, routed, row_covering};
use super::screen_layout::{LayoutModel, PanesModel};
use crate::application::command::Command;
use crate::application::key::{Key, KeyCode, Named};

verus! {

/// Whether a column and a row lie in a region, as far as coordinates reach.
pub open spec fn lies_in(column: u16, row: u16, area: Rect) -> bool {
    &&& area.x <= column < area.x + area.width && column < 65535
    &&& area.y <= row < area.y + area.height && row < 65535
}

/// Whether a column and a row lie in none of several regions.
pub open spec fn lies_outside(column: u16, row: u16, areas: Seq<Rect>) -> bool {
    forall|i: int| 0 <= i < areas.len() ==> !lies_in(column, row, #[trigger] areas[i])
}

/// Whether the first of several regions that a column and a row lie in is the
/// one at an index.
pub open spec fn lies_first_in(column: u16, row: u16, areas: Seq<Rect>, index: int) -> bool {
    &&& 0 <= index < areas.len()
    &&& lies_in(column, row, areas[index])
    &&& lies_outside(column, row, areas.take(index))
}

/// Whether a column and a row lie in no row of any panel.
pub open spec fn lies_outside_rows(
    column: u16,
    row: u16,
    rows: Seq<Seq<(usize, Rect)>>,
) -> bool {
    forall|p: int, k: int|
        0 <= p < rows.len() && 0 <= k < rows[p].len() ==> !lies_in(
            column,
            row,
            (#[trigger] rows[p][k]).1,
        )
}

/// Whether a column and a row lie in one row of a panel, and in no row that
/// comes before it.
pub open spec fn lies_first_in_row(
    column: u16,
    row: u16,
    rows: Seq<Seq<(usize, Rect)>>,
    panel: int,
    index: int,
) -> bool {
    &&& 0 <= panel < rows.len()
    &&& 0 <= index < rows[panel].len()
    &&& lies_in(column, row, rows[panel][index].1)
    &&& lies_outside_rows(column, row, rows.take(panel))
    &&& forall|k: int|
        0 <= k < index ==> !lies_in(column, row, (#[trigger] rows[panel][k]).1)
}

proof fn lemma_covers(area: Rect, column: u16, row: u16)
    ensures
        covers(area, Position { x: column, y: row }) == lies_in(column, row, area),
{
}

proof fn lemma_outside(areas: Seq<Rect>, column: u16, row: u16)
    requires
        lies_outside(column, row, areas),
    ensures
        first_covering(areas, Position { x: column, y: row }) is None,
    decreases areas.len(),
{
    if areas.len() > 0 {
        lemma_covers(areas[0], column, row);
        assert forall|i: int| 0 <= i < areas.drop_first().len() implies !lies_in(
            column,
            row,
            #[trigger] areas.drop_first()[i],
        ) by {
            assert(areas.drop_first()[i] == areas[i + 1]);
        }
        lemma_outside(areas.drop_first(), column, row);
    }
}

proof fn lemma_first(areas: Seq<Rect>, column: u16, row: u16, index: int)
    requires
        lies_first_in(column, row, areas, index),
    ensures
        first_covering(areas, Position { x: column, y: row }) == Some(index),
    decreases areas.len(),
{
    lemma_covers(areas[0], column, row);
    if index > 0 {
        assert(areas.take(index)[0] == areas[0]);
        let rest = areas.drop_first();
        assert(rest[index - 1] == areas[index]);
        assert forall|i: int| 0 <= i < rest.take(index - 1).len() implies !lies_in(
            column,
            row,
            #[trigger] rest.take(index - 1)[i],
        ) by {
            assert(areas.take(index)[i + 1] == rest.take(index - 1)[i]);
        }
        lemma_first(rest, column, row, index - 1);
    }
}

proof fn lemma_outside_row(rows: Seq<(usize, Rect)>, column: u16, row: u16)
    requires
        forall|k: int| 0 <= k < rows.len() ==> !lies_in(column, row, (#[trigger] rows[k]).1),
    ensures
        row_covering(rows, Position { x: column, y: row }) is None,
    decreases rows.len(),
{
    if rows.len() > 0 {
        lemma_covers(rows[0].1, column, row);
        let rest = rows.drop_first();
        assert forall|k: int| 0 <= k < rest.len() implies !lies_in(
            column,
            row,
            (#[trigger] rest[k]).1,
        ) by {
            assert(rest[k] == rows[k + 1]);
        }
        lemma_outside_row(rest, column, row);
    }
}

proof fn lemma_first_row(rows: Seq<(usize, Rect)>, column: u16, row: u16, index: int)
    requires
        0 <= index < rows.len(),
        lies_in(column, row, rows[index].1),
        forall|k: int| 0 <= k < index ==> !lies_in(column, row, (#[trigger] rows[k]).1),
    ensures
        row_covering(rows, Position { x: column, y: row }) == Some(rows[index].0),
    decreases rows.len(),
{
    lemma_covers(rows[0].1, column, row);
    if index > 0 {
        let rest = rows.drop_first();
        assert(rest[index - 1] == rows[index]);
        assert forall|k: int| 0 <= k < index - 1 implies !lies_in(
            column,
            row,
            (#[trigger] rest[k]).1,
        ) by {
            assert(rest[k] == rows[k + 1]);
        }
        lemma_first_row(rest, column, row, index - 1);
    }
}

proof fn lemma_outside_rows(rows: Seq<Seq<(usize, Rect)>>, column: u16, row: u16)
    requires
        lies_outside_rows(column, row, rows),
    ensures
        resource_covering(rows, Position { x: column, y: row }) is None,
    decreases rows.len(),
{
    if rows.len() > 0 {
        assert forall|k: int| 0 <= k < rows[0].len() implies !lies_in(
            column,
            row,
            (#[trigger] rows[0][k]).1,
        ) by {}
        lemma_outside_row(rows[0], column, row);
        let rest = rows.drop_first();
        assert forall|p: int, k: int| 0 <= p < rest.len() && 0 <= k < rest[p].len() implies !lies_in(
            column,
            row,
            (#[trigger] rest[p][k]).1,
        ) by {
            assert(rest[p][k] == rows[p + 1][k]);
        }
        lemma_outside_rows(rest, column, row);
    }
}

proof fn lemma_first_in_row(
    rows: Seq<Seq<(usize, Rect)>>,
    column: u16,
    row: u16,
    panel: int,
    index: int,
)
    requires
        lies_first_in_row(column, row, rows, panel, index),
    ensures
        resource_covering(rows, Position { x: column, y: row }) == Some(
            (panel, rows[panel][index].0),
        ),
    decreases rows.len(),
{
    if panel == 0 {
        lemma_first_row(rows[0], column, row, index);
    } else {
        assert forall|k: int| 0 <= k < rows[0].len() implies !lies_in(
            column,
            row,
            (#[trigger] rows[0][k]).1,
        ) by {
            assert(rows.take(panel)[0][k] == rows[0][k]);
        }
        lemma_outside_row(rows[0], column, row);
        let rest = rows.drop_first();
        assert(rest[panel - 1] == rows[panel]);
        let before = rest.take(panel - 1);
        assert forall|p: int, k: int|
            0 <= p < before.len() && 0 <= k < before[p].len() implies !lies_in(
            column,
            row,
            (#[trigger] before[p][k]).1,
        ) by {
            assert(before[p][k] == rows.take(panel)[p + 1][k]);
        }
        lemma_first_in_row(rest, column, row, panel - 1, index);
    }
}

/// The wheel turned down scrolls down and turned up scrolls up, whatever is
/// under it, and means nothing else.
pub proof fn law_the_wheel_scrolls_the_way_it_turns(
    layout: LayoutModel,
    input: MouseInput,
    grab: Option<u16>,
)
    ensures
        input.action == MouseAction::ScrollDown ==> (routed(layout, input, grab) matches Some(
            command,
        ) ==> command == Command::ScrollDetailsDown || command is ScrollResourcePanelDown),
        input.action == MouseAction::ScrollUp ==> (routed(layout, input, grab) matches Some(
            command,
        ) ==> command == Command::ScrollDetailsUp || command is ScrollResourcePanelUp),
{
}

/// The wheel scrolls what lies under it: the Details where it lies in them or
/// on one of their tabs, and otherwise the Resource Panel it lies in.
pub proof fn law_the_wheel_scrolls_what_lies_under_it(
    layout: LayoutModel,
    panes: PanesModel,
    input: MouseInput,
    grab: Option<u16>,
    panel: int,
)
    requires
        layout.overlay is None,
        layout.panes == Some(panes),
        input.action == MouseAction::ScrollDown || input.action == MouseAction::ScrollUp,
    ensures
        ({
            let down = input.action == MouseAction::ScrollDown;
            let on_details = lies_in(input.column, input.row, panes.details) || !lies_outside(
                input.column,
                input.row,
                panes.detail_views,
            );
            let command = routed(layout, input, grab);
            &&& lies_in(input.column, input.row, panes.details) ==> command == Some(
                if down {
                    Command::ScrollDetailsDown
                } else {
                    Command::ScrollDetailsUp
                },
            )
            &&& !on_details && 0 <= panel <= usize::MAX && lies_outside_rows(
                input.column,
                input.row,
                panes.resource_rows,
            ) && lies_first_in(input.column, input.row, panes.resource_panels, panel) ==> command
                == Some(
                if down {
                    Command::ScrollResourcePanelDown(panel as usize)
                } else {
                    Command::ScrollResourcePanelUp(panel as usize)
                },
            )
            &&& !on_details && lies_outside_rows(input.column, input.row, panes.resource_rows)
                && lies_outside(input.column, input.row, panes.resource_panels) ==> command is None
        }),
{
    let point = Position { x: input.column, y: input.row };
    lemma_covers(panes.details, input.column, input.row);
    if lies_outside(input.column, input.row, panes.detail_views) {
        lemma_outside(panes.detail_views, input.column, input.row);
    }
    if lies_outside_rows(input.column, input.row, panes.resource_rows) {
        lemma_outside_rows(panes.resource_rows, input.column, input.row);
    }
    if lies_first_in(input.column, input.row, panes.resource_panels, panel) {
        lemma_first(panes.resource_panels, input.column, input.row, panel);
    }
    if lies_outside(input.column, input.row, panes.resource_panels) {
        lemma_outside(panes.resource_panels, input.column, input.row);
    }
}

/// The wheel over the row of a Resource scrolls the panel that the row belongs
/// to; over a tab it scrolls the Details.
pub proof fn law_the_wheel_over_a_row_scrolls_its_panel(
    layout: LayoutModel,
    panes: PanesModel,
    input: MouseInput,
    grab: Option<u16>,
    panel: int,
    index: int,
)
    requires
        layout.overlay is None,
        layout.panes == Some(panes),
        input.action == MouseAction::ScrollDown || input.action == MouseAction::ScrollUp,
        0 <= panel <= usize::MAX,
    ensures
        ({
            let down = input.action == MouseAction::ScrollDown;
            let command = routed(layout, input, grab);
            &&& !lies_in(input.column, input.row, panes.details) && lies_outside(
                input.column,
                input.row,
                panes.detail_views,
            ) && lies_first_in_row(input.column, input.row, panes.resource_rows, panel, index)
                ==> command == Some(
                if down {
                    Command::ScrollResourcePanelDown(panel as usize)
                } else {
                    Command::ScrollResourcePanelUp(panel as usize)
                },
            )
            &&& lies_first_in(input.column, input.row, panes.detail_views, index) ==> command
                == Some(
                if down {
                    Command::ScrollDetailsDown
                } else {
                    Command::ScrollDetailsUp
                },
            )
        }),
{
    lemma_covers(panes.details, input.column, input.row);
    if lies_outside(input.column, input.row, panes.detail_views) {
        lemma_outside(panes.detail_views, input.column, input.row);
    }
    if lies_first_in_row(input.column, input.row, panes.resource_rows, panel, index) {
        lemma_first_in_row(panes.resource_rows, input.column, input.row, panel, index);
    }
    if lies_first_in(input.column, input.row, panes.detail_views, index) {
        lemma_first(panes.detail_views, input.column, input.row, index);
    }
}

/// A press in the provider bar: on the label of a Provider Workspace it makes
/// that one active, and on the label of the bar it focuses the bar.
pub proof fn law_a_press_in_the_provider_bar(
    layout: LayoutModel,
    input: MouseInput,
    grab: Option<u16>,
    index: int,
)
    requires
        layout.overlay is None,
        input.action == MouseAction::Press,
        0 <= index <= usize::MAX,
    ensures
        lies_first_in(input.column, input.row, layout.provider_workspaces, index) ==> routed(
            layout,
            input,
            grab,
        ) == Some(Command::ActivateProviderWorkspace(index as usize)),
        lies_outside(input.column, input.row, layout.provider_workspaces) && lies_in(
            input.column,
            input.row,
            layout.provider_selector,
        ) ==> routed(layout, input, grab) == Some(Command::FocusProviders),
        lies_outside(input.column, input.row, layout.provider_workspaces) && !lies_in(
            input.column,
            input.row,
            layout.provider_selector,
        ) && layout.panes is None ==> routed(layout, input, grab) is None,
{
    lemma_covers(layout.provider_selector, input.column, input.row);
    if lies_first_in(input.column, input.row, layout.provider_workspaces, index) {
        lemma_first(layout.provider_workspaces, input.column, input.row, index);
    }
    if lies_outside(input.column, input.row, layout.provider_workspaces) {
        lemma_outside(layout.provider_workspaces, input.column, input.row);
    }
}

/// Whether a press lies below the provider bar, where the Panes are.
pub open spec fn below_the_bar(layout: LayoutModel, column: u16, row: u16) -> bool {
    lies_outside(column, row, layout.provider_workspaces) && !lies_in(
        column,
        row,
        layout.provider_selector,
    )
}

/// A press on the Pane Boundary takes hold of it at the pressed column of the
/// boundary; beside it, a press on the row of a Resource selects that very
/// Resource.
pub proof fn law_a_press_on_the_boundary_or_a_row(
    layout: LayoutModel,
    panes: PanesModel,
    input: MouseInput,
    grab: Option<u16>,
    panel: int,
    index: int,
)
    requires
        layout.overlay is None,
        layout.panes == Some(panes),
        input.action == MouseAction::Press,
        below_the_bar(layout, input.column, input.row),
        0 <= panel <= usize::MAX,
    ensures
        lies_in(input.column, input.row, panes.pane_boundary) ==> routed(layout, input, grab)
            == Some(Command::GrabPaneBoundary((input.column - panes.pane_boundary.x) as u16)),
        !lies_in(input.column, input.row, panes.pane_boundary) && lies_first_in_row(
            input.column,
            input.row,
            panes.resource_rows,
            panel,
            index,
        ) ==> routed(layout, input, grab) == Some(
            Command::SelectResource {
                panel: panel as usize,
                resource: panes.resource_rows[panel][index].0,
            },
        ),
{
    lemma_covers(layout.provider_selector, input.column, input.row);
    lemma_outside(layout.provider_workspaces, input.column, input.row);
    lemma_covers(panes.pane_boundary, input.column, input.row);
    if lies_first_in_row(input.column, input.row, panes.resource_rows, panel, index) {
        lemma_first_in_row(panes.resource_rows, input.column, input.row, panel, index);
    }
}

/// A press beside the boundary and the rows: on a tab it activates that tab, in
/// the content of the Details it begins a selection at the pressed place of the
/// content, in a Resource Panel it focuses that panel, elsewhere in the Details
/// it focuses them, and anywhere else it means nothing.
pub proof fn law_a_press_elsewhere_on_the_panes(
    layout: LayoutModel,
    panes: PanesModel,
    input: MouseInput,
    grab: Option<u16>,
    index: int,
)
    requires
        layout.overlay is None,
        layout.panes == Some(panes),
        input.action == MouseAction::Press,
        below_the_bar(layout, input.column, input.row),
        !lies_in(input.column, input.row, panes.pane_boundary),
        lies_outside_rows(input.column, input.row, panes.resource_rows),
        0 <= index <= usize::MAX,
    ensures
        lies_first_in(input.column, input.row, panes.detail_views, index) ==> routed(
            layout,
            input,
            grab,
        ) == Some(Command::ActivateDetailView(index as usize)),
        lies_outside(input.column, input.row, panes.detail_views) ==> ({
            let command = routed(layout, input, grab);
            let in_content = lies_in(input.column, input.row, panes.detail_content);
            &&& in_content ==> command == Some(
                Command::BeginDetailsSelection {
                    line: (input.row - panes.detail_content.y) as u16,
                    column: (input.column - panes.detail_content.x) as u16,
                },
            )
            &&& !in_content && lies_first_in(
                input.column,
                input.row,
                panes.resource_panels,
                index,
            ) ==> command == Some(Command::FocusResourcePanel(index as usize))
            &&& !in_content && lies_outside(input.column, input.row, panes.resource_panels)
                ==> command == (if lies_in(input.column, input.row, panes.details) {
                Some(Command::FocusDetails)
            } else {
                None
            })
        }),
{
    lemma_covers(layout.provider_selector, input.column, input.row);
    lemma_outside(layout.provider_workspaces, input.column, input.row);
    lemma_covers(panes.pane_boundary, input.column, input.row);
    lemma_outside_rows(panes.resource_rows, input.column, input.row);
    lemma_covers(panes.detail_content, input.column, input.row);
    lemma_covers(panes.details, input.column, input.row);
    if lies_first_in(input.column, input.row, panes.detail_views, index) {
        lemma_first(panes.detail_views, input.column, input.row, index);
    }
    if lies_outside(input.column, input.row, panes.detail_views) {
        lemma_outside(panes.detail_views, input.column, input.row);
    }
    if lies_first_in(input.column, input.row, panes.resource_panels, index) {
        lemma_first(panes.resource_panels, input.column, input.row, index);
    }
    if lies_outside(input.column, input.row, panes.resource_panels) {
        lemma_outside(panes.resource_panels, input.column, input.row);
    }
}

/// A drag that holds the Pane Boundary carries it along: the column of the
/// Resource Panels then ends at the pointer, less the column of the boundary it
/// was taken hold of by, and the share is that width in whole hundredths of the
/// Workspace.
pub proof fn law_a_held_boundary_follows_the_pointer(
    layout: LayoutModel,
    input: MouseInput,
    grab: u16,
)
    requires
        layout.overlay is None,
        input.action == MouseAction::Drag,
        layout.workspace.width > 0,
        layout.workspace.x + layout.workspace.width <= 65535,
    ensures
        routed(layout, input, Some(grab)) matches Some(command) && command matches
            Command::SetPaneBoundary(share) && ({
            let width = layout.workspace.width as int;
            let carried = if input.column >= grab {
                input.column - grab
            } else {
                0
            };
            let end = carried + 1 - layout.workspace.x;
            let held = if end < 0 {
                0
            } else if end > width {
                width
            } else {
                end
            };
            &&& share * width <= held * 100 < (share + 1) * width
            &&& share <= 100
        }),
{
    let width = layout.workspace.width as int;
    let last = if input.column >= grab {
        input.column - grab
    } else {
        0
    };
    let end = last + 1 - layout.workspace.x;
    let part = if end < 0 {
        0
    } else if end > width {
        width
    } else {
        end
    };
    let share = part * 100 / width;
    assert(0 <= part <= width);
    assert(share * width <= part * 100 < (share + 1) * width) by (nonlinear_arith)
        requires
            share == part * 100 / width,
            width > 0,
    ;
    assert(0 <= share <= 100) by (nonlinear_arith)
        requires
            share == part * 100 / width,
            width > 0,
            0 <= part <= width,
    ;
    let sixteen = super::mouse_routing::dragged_share(layout.workspace, input.column, grab);
    assert(sixteen == share);
}

/// A drag that holds nothing carries the end of the Details selection to the
/// place of the content under the pointer, and past an edge of the content it
/// says which one.
pub proof fn law_an_unheld_drag_extends_the_selection(
    layout: LayoutModel,
    panes: PanesModel,
    input: MouseInput,
)
    requires
        layout.overlay is None,
        layout.panes == Some(panes),
        input.action == MouseAction::Drag,
        panes.detail_content.x + panes.detail_content.width <= 65535,
        panes.detail_content.y + panes.detail_content.height <= 65535,
    ensures
        ({
            let content = panes.detail_content;
            let beside = input.column < content.x || input.column >= content.x + content.width;
            let above = input.row < content.y;
            let below = input.row >= content.y + content.height;
            routed(layout, input, None) == (if beside {
                None
            } else if above || below {
                Some(
                    Command::ExtendDetailsSelectionAtEdge {
                        above,
                        column: (input.column - content.x) as u16,
                        visible_rows: content.height,
                    },
                )
            } else {
                Some(
                    Command::ExtendDetailsSelection {
                        line: (input.row - content.y) as u16,
                        column: (input.column - content.x) as u16,
                    },
                )
            })
        }),
{
}

/// What the primary button and the wheel do is what is heard of the mouse: a
/// press, a drag, a release, and turning up or down, each as itself.
pub proof fn law_the_mouse_is_heard_as_it_is_moved(button: TerminalButton)
    ensures
        pointer_action(TerminalMouseKind::ScrollUp) == Some(MouseAction::ScrollUp),
        pointer_action(TerminalMouseKind::ScrollDown) == Some(MouseAction::ScrollDown),
        pointer_action(TerminalMouseKind::Down(button)) == (if button == TerminalButton::Left {
            Some(MouseAction::Press)
        } else {
            None
        }),
        pointer_action(TerminalMouseKind::Drag(button)) == (if button == TerminalButton::Left {
            Some(MouseAction::Drag)
        } else {
            None
        }),
        pointer_action(TerminalMouseKind::Up(button)) == (if button == TerminalButton::Left {
            Some(MouseAction::Release)
        } else {
            None
        }),
        pointer_action(TerminalMouseKind::Moved) is None,
        pointer_action(TerminalMouseKind::ScrollLeft) is None,
        pointer_action(TerminalMouseKind::ScrollRight) is None,
{
}

/// A press of a key is heard as that very key, with control and alt as they are
/// held; shift says nothing more, and only presses are heard.
pub proof fn law_keys_are_heard_as_they_are_pressed(
    character: char,
    number: u8,
    modifiers: TerminalModifiers,
    event: TerminalKey,
)
    ensures
        event.kind != TerminalKeyKind::Press ==> logical_key(event) is None,
        event.kind == TerminalKeyKind::Press ==> (logical_key(event) matches Some(key) ==> key.ctrl
            == event.modifiers.control && key.alt == event.modifiers.alt),
        ({
            let heard = |code: TerminalKeyCode|
                logical_key(TerminalKey { code, modifiers, kind: TerminalKeyKind::Press });
            let named = |named: Named|
                Some(
                    Key {
                        code: KeyCode::Named(named),
                        ctrl: modifiers.control,
                        alt: modifiers.alt,
                    },
                );
            &&& heard(TerminalKeyCode::Char(character)) == Some(
                Key {
                    code: KeyCode::Character(character),
                    ctrl: modifiers.control,
                    alt: modifiers.alt,
                },
            )
            &&& heard(TerminalKeyCode::Backspace) == named(Named::Backspace)
            &&& heard(TerminalKeyCode::Enter) == named(Named::Enter)
            &&& heard(TerminalKeyCode::Esc) == named(Named::Esc)
            &&& heard(TerminalKeyCode::Tab) == named(Named::Tab)
            &&& heard(TerminalKeyCode::BackTab) == named(Named::BackTab)
            &&& heard(TerminalKeyCode::Left) == named(Named::Left)
            &&& heard(TerminalKeyCode::Right) == named(Named::Right)
            &&& heard(TerminalKeyCode::Up) == named(Named::Up)
            &&& heard(TerminalKeyCode::Down) == named(Named::Down)
            &&& heard(TerminalKeyCode::Home) == named(Named::Home)
            &&& heard(TerminalKeyCode::End) == named(Named::End)
            &&& heard(TerminalKeyCode::PageUp) == named(Named::PageUp)
            &&& heard(TerminalKeyCode::PageDown) == named(Named::PageDown)
            &&& heard(TerminalKeyCode::Insert) == named(Named::Insert)
            &&& heard(TerminalKeyCode::Delete) == named(Named::Delete)
            &&& heard(TerminalKeyCode::F(number)) == (if 1 <= number <= 12 {
                named(Named::Function(number))
            } else {
                None
            })
            &&& heard(TerminalKeyCode::Other) is None
        }),
{
}

} // verus!
