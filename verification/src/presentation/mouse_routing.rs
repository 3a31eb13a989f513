//! Turns a mouse event into the Command it means, using the drawn layout.
//!
//! A click resolving to a Command is the same shape as a Keybinding resolving
//! to one, so the mouse joins the keyboard's single path through the
//! application instead of reaching into its state on its own.

use vstd::prelude::*;

use super::geometry::{covers, held, right_of, smaller, Position, Rect};
use super::input::{MouseAction, MouseInput};
use super::screen_layout::{rows_view, LayoutModel, PanesModel, ScreenLayout, WorkspacePanes};
use crate::application::command::Command;

verus! {

/// The first of several regions that covers a position.
pub open spec fn first_covering(areas: Seq<Rect>, point: Position) -> Option<int>
    decreases areas.len(),
{
    if areas.len() == 0 {
        None
    } else if covers(areas[0], point) {
        Some(0)
    } else {
        match first_covering(areas.drop_first(), point) {
            Some(i) => Some(i + 1),
            None => None,
        }
    }
}

/// The Resource whose row covers a position.
pub open spec fn row_covering(rows: Seq<(usize, Rect)>, point: Position) -> Option<usize>
    decreases rows.len(),
{
    if rows.len() == 0 {
        None
    } else if covers(rows[0].1, point) {
        Some(rows[0].0)
    } else {
        row_covering(rows.drop_first(), point)
    }
}

/// The panel and the Resource whose row covers a position.
pub open spec fn resource_covering(rows: Seq<Seq<(usize, Rect)>>, point: Position) -> Option<
    (int, usize),
>
    decreases rows.len(),
{
    if rows.len() == 0 {
        None
    } else {
        match row_covering(rows[0], point) {
            Some(resource) => Some((0, resource)),
            None => match resource_covering(rows.drop_first(), point) {
                Some((panel, resource)) => Some((panel + 1, resource)),
                None => None,
            },
        }
    }
}

/// The share that a held Pane Boundary leaves the Resource Panels once it is
/// carried to a column.
///
/// `grab` is the column of the boundary the pointer took hold of, and taking
/// it off the pointer is what stops the boundary jumping.
pub open spec fn dragged_share(workspace: Rect, column: u16, grab: u16) -> int {
    let last_column = held(column - grab);
    let width = smaller(held(held(last_column + 1) - workspace.x), workspace.width);
    width * 100 / (workspace.width as int)
}

/// What a drag means while the pointer holds nothing: it carries the end of the
/// Details selection, past an edge where it left the content by one.
pub open spec fn selection_drag(content: Rect, point: Position) -> Option<Command> {
    if !(content.x <= point.x < right_of(content)) {
        None
    } else if covers(content, point) {
        Some(
            Command::ExtendDetailsSelection {
                line: (point.y - content.y) as u16,
                column: (point.x - content.x) as u16,
            },
        )
    } else {
        Some(
            Command::ExtendDetailsSelectionAtEdge {
                above: point.y < content.y,
                column: (point.x - content.x) as u16,
                visible_rows: content.height,
            },
        )
    }
}

/// What a press on the Panes means.
///
/// The boundary is looked at before the Panes: its own columns are the last of
/// the Resource Panels and the first of the Details Pane, so a boundary looked
/// at afterwards would never be reached.
pub open spec fn panes_pressed(panes: PanesModel, point: Position) -> Option<Command> {
    if covers(panes.pane_boundary, point) {
        Some(Command::GrabPaneBoundary((point.x - panes.pane_boundary.x) as u16))
    } else if resource_covering(panes.resource_rows, point) is Some {
        let (panel, resource) = resource_covering(panes.resource_rows, point)->0;
        Some(Command::SelectResource { panel: panel as usize, resource })
    } else if first_covering(panes.detail_views, point) is Some {
        Some(
            Command::ActivateDetailView(first_covering(panes.detail_views, point)->0 as usize),
        )
    } else if covers(panes.detail_content, point) {
        Some(
            Command::BeginDetailsSelection {
                line: (point.y - panes.detail_content.y) as u16,
                column: (point.x - panes.detail_content.x) as u16,
            },
        )
    } else if first_covering(panes.resource_panels, point) is Some {
        Some(
            Command::FocusResourcePanel(first_covering(panes.resource_panels, point)->0 as usize),
        )
    } else if covers(panes.details, point) {
        Some(Command::FocusDetails)
    } else {
        None
    }
}

/// What a press means.
pub open spec fn pressed(layout: LayoutModel, point: Position) -> Option<Command> {
    match first_covering(layout.provider_workspaces, point) {
        Some(index) => Some(Command::ActivateProviderWorkspace(index as usize)),
        None => if covers(layout.provider_selector, point) {
            Some(Command::FocusProviders)
        } else {
            match layout.panes {
                Some(panes) => panes_pressed(panes, point),
                None => None,
            }
        },
    }
}

/// The panel under a position.
pub open spec fn panel_under(panes: PanesModel, point: Position) -> Option<int> {
    match resource_covering(panes.resource_rows, point) {
        Some((panel, _)) => Some(panel),
        None => first_covering(panes.resource_panels, point),
    }
}

/// What the wheel means: it scrolls what is under the pointer and never moves
/// focus.
pub open spec fn wheeled(layout: LayoutModel, point: Position, up: bool) -> Option<Command> {
    match layout.panes {
        Some(panes) => if covers(panes.details, point) || first_covering(
            panes.detail_views,
            point,
        ) is Some {
            Some(
                if up {
                    Command::ScrollDetailsUp
                } else {
                    Command::ScrollDetailsDown
                },
            )
        } else {
            match panel_under(panes, point) {
                Some(panel) => Some(
                    if up {
                        Command::ScrollResourcePanelUp(panel as usize)
                    } else {
                        Command::ScrollResourcePanelDown(panel as usize)
                    },
                ),
                None => None,
            }
        },
        None => None,
    }
}

/// What a drag means.
pub open spec fn dragged(layout: LayoutModel, point: Position, grab: Option<u16>) -> Option<
    Command,
> {
    match grab {
        Some(grab) => if layout.workspace.width == 0 {
            None
        } else {
            Some(
                Command::SetPaneBoundary(dragged_share(layout.workspace, point.x, grab) as u16),
            )
        },
        None => match layout.panes {
            Some(panes) => selection_drag(panes.detail_content, point),
            None => None,
        },
    }
}

/// The Command that a mouse event means.
pub open spec fn routed(layout: LayoutModel, input: MouseInput, grab: Option<u16>) -> Option<
    Command,
> {
    let point = Position { x: input.column, y: input.row };
    if input.action == MouseAction::Release {
        if grab is Some {
            Some(Command::ReleasePaneBoundary)
        } else {
            None
        }
    } else if layout.overlay is Some {
        None
    } else {
        match input.action {
            MouseAction::Press => pressed(layout, point),
            MouseAction::Drag => dragged(layout, point, grab),
            MouseAction::ScrollUp => wheeled(layout, point, true),
            _ => wheeled(layout, point, false),
        }
    }
}

fn index_containing(areas: &Vec<Rect>, point: Position) -> (index: Option<usize>)
    ensures
        index matches Some(i) ==> first_covering(areas@, point) == Some(i as int),
        index is None ==> first_covering(areas@, point) is None,
{
    let ghost all = areas@;
    let mut i: usize = 0;
    assert(all.skip(0) =~= all);
    while i < areas.len()
        invariant
            i <= areas.len(),
            all == areas@,
            first_covering(all, point) == (match first_covering(all.skip(i as int), point) {
                Some(k) => Some(k + i),
                None => None,
            }),
        decreases areas.len() - i,
    {
        assert(all.skip(i as int)[0] == areas@[i as int]);
        assert(all.skip(i as int).drop_first() =~= all.skip(i + 1));
        if areas[i].contains(point) {
            return Some(i);
        }
        i = i + 1;
    }
    None
}

fn row_containing(rows: &Vec<(usize, Rect)>, point: Position) -> (resource: Option<usize>)
    ensures
        resource == row_covering(rows@, point),
{
    let ghost all = rows@;
    let mut i: usize = 0;
    assert(all.skip(0) =~= all);
    while i < rows.len()
        invariant
            i <= rows.len(),
            all == rows@,
            row_covering(all, point) == row_covering(all.skip(i as int), point),
        decreases rows.len() - i,
    {
        assert(all.skip(i as int)[0] == rows@[i as int]);
        assert(all.skip(i as int).drop_first() =~= all.skip(i + 1));
        if rows[i].1.contains(point) {
            return Some(rows[i].0);
        }
        i = i + 1;
    }
    None
}

fn resource_containing(rows: &Vec<Vec<(usize, Rect)>>, point: Position) -> (found: Option<
    (usize, usize),
>)
    ensures
        found matches Some((panel, resource)) ==> resource_covering(rows_view(rows@), point)
            == Some((panel as int, resource)),
        found is None ==> resource_covering(rows_view(rows@), point) is None,
{
    let ghost all = rows_view(rows@);
    let mut i: usize = 0;
    assert(all.skip(0) =~= all);
    while i < rows.len()
        invariant
            i <= rows.len(),
            all == rows_view(rows@),
            resource_covering(all, point) == (match resource_covering(
                all.skip(i as int),
                point,
            ) {
                Some((panel, resource)) => Some((panel + i, resource)),
                None => None,
            }),
        decreases rows.len() - i,
    {
        assert(all.skip(i as int)[0] == rows@[i as int]@);
        assert(all.skip(i as int).drop_first() =~= all.skip(i + 1));
        match row_containing(&rows[i], point) {
            Some(resource) => return Some((i, resource)),
            None => {},
        }
        i = i + 1;
    }
    None
}

fn drag(layout: &ScreenLayout, point: Position, grab: Option<u16>) -> (command: Option<Command>)
    ensures
        command == dragged(layout@, point, grab),
{
    match grab {
        Some(grab) => {
            let workspace = layout.workspace;
            if workspace.width == 0 {
                return None;
            }
            let last_column: u16 = point.x.saturating_sub(grab);
            let reach: u16 = last_column.saturating_add(1).saturating_sub(workspace.x);
            let width: u16 = if reach <= workspace.width {
                reach
            } else {
                workspace.width
            };
            let share: u32 = width as u32 * 100 / workspace.width as u32;
            proof {
                assert(share <= 100) by (nonlinear_arith)
                    requires
                        width <= workspace.width,
                        workspace.width > 0,
                        share == width * 100 / (workspace.width as int),
                ;
            }
            Some(Command::SetPaneBoundary(share as u16))
        },
        None => match &layout.panes {
            Some(panes) => {
                let content = panes.detail_content;
                if point.x < content.x || point.x >= content.right() {
                    return None;
                }
                let column: u16 = point.x - content.x;
                if content.contains(point) {
                    return Some(
                        Command::ExtendDetailsSelection { line: point.y - content.y, column },
                    );
                }
                Some(
                    Command::ExtendDetailsSelectionAtEdge {
                        above: point.y < content.y,
                        column,
                        visible_rows: content.height,
                    },
                )
            },
            None => None,
        },
    }
}

fn press_panes(panes: &WorkspacePanes, point: Position) -> (command: Option<Command>)
    ensures
        command == panes_pressed(panes@, point),
{
    if panes.pane_boundary.contains(point) {
        return Some(Command::GrabPaneBoundary(point.x - panes.pane_boundary.x));
    }
    match resource_containing(&panes.resource_rows, point) {
        Some((panel, resource)) => return Some(Command::SelectResource { panel, resource }),
        None => {},
    }
    match index_containing(&panes.detail_views, point) {
        Some(index) => return Some(Command::ActivateDetailView(index)),
        None => {},
    }
    let content = panes.detail_content;
    if content.contains(point) {
        return Some(
            Command::BeginDetailsSelection {
                line: point.y - content.y,
                column: point.x - content.x,
            },
        );
    }
    match index_containing(&panes.resource_panels, point) {
        Some(panel) => return Some(Command::FocusResourcePanel(panel)),
        None => {},
    }
    if panes.details.contains(point) {
        return Some(Command::FocusDetails);
    }
    None
}

fn press(layout: &ScreenLayout, point: Position) -> (command: Option<Command>)
    ensures
        command == pressed(layout@, point),
{
    match index_containing(&layout.provider_workspaces, point) {
        Some(index) => return Some(Command::ActivateProviderWorkspace(index)),
        None => {},
    }
    if layout.provider_selector.contains(point) {
        return Some(Command::FocusProviders);
    }
    match &layout.panes {
        Some(panes) => press_panes(panes, point),
        None => None,
    }
}

/// The wheel scrolls what is under the pointer and never moves focus, so it
/// reads the layout the same way but resolves to a scrolling Command only.
fn scroll(layout: &ScreenLayout, point: Position, up: bool) -> (command: Option<Command>)
    ensures
        command == wheeled(layout@, point, up),
{
    let panes = match &layout.panes {
        Some(panes) => panes,
        None => return None,
    };
    if panes.details.contains(point) || index_containing(&panes.detail_views, point).is_some() {
        return Some(
            if up {
                Command::ScrollDetailsUp
            } else {
                Command::ScrollDetailsDown
            },
        );
    }
    let panel = match resource_containing(&panes.resource_rows, point) {
        Some((panel, _)) => panel,
        None => match index_containing(&panes.resource_panels, point) {
            Some(panel) => panel,
            None => return None,
        },
    };
    Some(
        if up {
            Command::ScrollResourcePanelUp(panel)
        } else {
            Command::ScrollResourcePanelDown(panel)
        },
    )
}

/// Resolves one mouse event against the layout that drew the screen.
///
/// `boundary_grab` is the Pane Boundary column the pointer is holding, which is
/// the one fact a gesture needs beyond the regions on screen: a drag names no
/// region, because the pointer has usually left the one it started in.
///
/// Returns `None` where there is nothing to do: over a border, over blank
/// space, or while an overlay owns the screen.
pub fn resolve(layout: &ScreenLayout, input: MouseInput, boundary_grab: Option<u16>) -> (command:
    Option<Command>)
    ensures
        command == routed(layout@, input, boundary_grab),
{
    let point = Position { x: input.column, y: input.row };
    // Letting go is answered first, because it is not a click on whatever is
    // on screen: it ends a gesture that began before it. A modal that opened
    // mid-drag would otherwise swallow the release and leave the boundary
    // held, and the next drag anywhere would carry it off.
    //
    // Every click ends in a release too, and only a held boundary makes one
    // worth reporting.
    if input.action == MouseAction::Release {
        return if boundary_grab.is_some() {
            Some(Command::ReleasePaneBoundary)
        } else {
            None
        };
    }
    // A modal owns the screen while it is open, so pointing at anything is not
    // for the widgets drawn beneath it. It is dismissed by its own Commands.
    if layout.overlay.is_some() {
        return None;
    }
    match input.action {
        MouseAction::Press => press(layout, point),
        MouseAction::Drag => drag(layout, point, boundary_grab),
        MouseAction::ScrollUp => scroll(layout, point, true),
        _ => scroll(layout, point, false),
    }
}

/// A modal owns the screen: while one is open no press, drag, or wheel reaches
/// what is drawn beneath it.
pub proof fn law_modals_own_the_screen(layout: LayoutModel, input: MouseInput, grab: Option<u16>)
    requires
        layout.overlay is Some,
        input.action != MouseAction::Release,
    ensures
        routed(layout, input, grab) is None,
{
}

/// Letting go always ends a held drag, whatever is on screen.
pub proof fn law_letting_go_ends_a_drag(layout: LayoutModel, input: MouseInput, grab: Option<u16>)
    requires
        input.action == MouseAction::Release,
    ensures
        routed(layout, input, grab) == (if grab is Some {
            Some(Command::ReleasePaneBoundary)
        } else {
            None
        }),
{
}

/// After the release a drag carries no boundary.
pub proof fn law_an_unheld_drag_moves_no_boundary(layout: LayoutModel, input: MouseInput)
    requires
        input.action == MouseAction::Drag,
    ensures
        !(routed(layout, input, None) matches Some(Command::SetPaneBoundary(_))),
{
}

/// The wheel resolves to a scrolling Command or to nothing.
pub proof fn law_the_wheel_only_scrolls(layout: LayoutModel, input: MouseInput, grab: Option<u16>)
    requires
        input.action == MouseAction::ScrollUp || input.action == MouseAction::ScrollDown,
    ensures
        routed(layout, input, grab) matches Some(command) ==> command is ScrollDetailsUp
            || command is ScrollDetailsDown || command is ScrollResourcePanelUp
            || command is ScrollResourcePanelDown,
{
}

/// Carrying the boundary by the column it was taken hold of to the column it
/// already ends at leaves the share that its width is.
pub proof fn law_taking_hold_moves_nothing(workspace: Rect, resources_width: u16, grab: u16)
    requires
        0 < resources_width <= workspace.width,
        workspace.x + workspace.width <= u16::MAX,
        workspace.x + resources_width - 1 + grab <= u16::MAX,
    ensures
        dragged_share(
            workspace,
            (workspace.x + resources_width - 1 + grab) as u16,
            grab,
        ) == resources_width * 100 / (workspace.width as int),
{
}

} // verus!
