//! Rectangles of the screen, and how a rectangle is divided.

use ratatui::layout;
use vstd::prelude::*;

verus! {

/// A position on the screen, in columns and rows.
#[derive(Clone, Copy, Debug, PartialEq, Eq, Structural)]
pub struct Position {
    pub x: u16,
    pub y: u16,
}

/// A rectangle of the screen.
#[derive(Clone, Copy, Debug, PartialEq, Eq, Structural)]
pub struct Rect {
    pub x: u16,
    pub y: u16,
    pub width: u16,
    pub height: u16,
}

/// The nearest number that sixteen bits hold.
pub open spec fn held(value: int) -> u16 {
    if value < 0 {
        0
    } else if value > u16::MAX {
        u16::MAX
    } else {
        value as u16
    }
}

/// The smaller of two numbers.
pub open spec fn smaller(left: u16, right: u16) -> u16 {
    if left <= right {
        left
    } else {
        right
    }
}

pub fn min_u16(left: u16, right: u16) -> (least: u16)
    ensures
        least == smaller(left, right),
{
    if left <= right {
        left
    } else {
        right
    }
}

/// A rectangle whose far edges stay on the largest screen there can be.
pub open spec fn rect(x: u16, y: u16, width: u16, height: u16) -> Rect {
    Rect { x, y, width: (held(x + width) - x) as u16, height: (held(y + height) - y) as u16 }
}

/// The first column to the right of a rectangle.
pub open spec fn right_of(area: Rect) -> u16 {
    held(area.x + area.width)
}

/// The first row below a rectangle.
pub open spec fn bottom_of(area: Rect) -> u16 {
    held(area.y + area.height)
}

/// Whether a rectangle covers a position.
pub open spec fn covers(area: Rect, point: Position) -> bool {
    area.x <= point.x < right_of(area) && area.y <= point.y < bottom_of(area)
}

impl Default for Rect {
    fn default() -> (area: Self)
        ensures
            area == (Rect { x: 0, y: 0, width: 0, height: 0 }),
    {
        Rect { x: 0, y: 0, width: 0, height: 0 }
    }
}

impl Rect {
    pub fn new(x: u16, y: u16, width: u16, height: u16) -> (area: Self)
        ensures
            area == rect(x, y, width, height),
    {
        Rect {
            x,
            y,
            width: x.saturating_add(width) - x,
            height: y.saturating_add(height) - y,
        }
    }

    pub fn right(&self) -> (column: u16)
        ensures
            column == right_of(*self),
    {
        self.x.saturating_add(self.width)
    }

    pub fn bottom(&self) -> (row: u16)
        ensures
            row == bottom_of(*self),
    {
        self.y.saturating_add(self.height)
    }

    pub fn contains(&self, point: Position) -> (inside: bool)
        ensures
            inside == covers(*self, point),
    {
        self.x <= point.x && point.x < self.right() && self.y <= point.y && point.y < self.bottom()
    }
}

/// The sides of a rectangle that have a border.
#[derive(Clone, Copy, Debug, PartialEq, Eq, Structural)]
pub struct Borders {
    pub left: bool,
    pub right: bool,
    pub top: bool,
    pub bottom: bool,
}

/// One column or row for a border, where there is one.
pub open spec fn border_width(drawn: bool) -> int {
    if drawn {
        1
    } else {
        0
    }
}

/// What borders leave of a rectangle.
pub open spec fn inside(area: Rect, borders: Borders) -> Rect {
    Rect {
        x: smaller(held(area.x + border_width(borders.left)), right_of(area)),
        y: smaller(held(area.y + border_width(borders.top)), bottom_of(area)),
        width: held(area.width - border_width(borders.left) - border_width(borders.right)),
        height: held(area.height - border_width(borders.top) - border_width(borders.bottom)),
    }
}

impl Borders {
    /// What the borders leave of a rectangle.
    pub fn inner(&self, area: Rect) -> (inner: Rect)
        ensures
            inner == inside(area, *self),
    {
        let left: u16 = if self.left {
            1
        } else {
            0
        };
        let right: u16 = if self.right {
            1
        } else {
            0
        };
        let top: u16 = if self.top {
            1
        } else {
            0
        };
        let bottom: u16 = if self.bottom {
            1
        } else {
            0
        };
        Rect {
            x: min_u16(area.x.saturating_add(left), area.right()),
            y: min_u16(area.y.saturating_add(top), area.bottom()),
            width: area.width.saturating_sub(left).saturating_sub(right),
            height: area.height.saturating_sub(top).saturating_sub(bottom),
        }
    }
}

/// The way in which a rectangle is divided.
#[derive(Clone, Copy, Debug, PartialEq, Eq, Structural)]
pub enum Direction {
    Horizontal,
    Vertical,
}

/// How much of a rectangle one of its parts wants.
#[derive(Clone, Copy, Debug, PartialEq, Eq, Structural)]
pub enum Constraint {
    Length(u16),
    Min(u16),
    Percentage(u16),
    Fill(u16),
}

/// Where a rectangle begins on the side that is divided.
pub open spec fn start_of(area: Rect, direction: Direction) -> int {
    match direction {
        Direction::Horizontal => area.x as int,
        Direction::Vertical => area.y as int,
    }
}

/// Where a rectangle ends on the side that is divided.
pub open spec fn end_of(area: Rect, direction: Direction) -> int {
    match direction {
        Direction::Horizontal => right_of(area) as int,
        Direction::Vertical => bottom_of(area) as int,
    }
}

/// How long a rectangle is on the side that is divided.
pub open spec fn extent(area: Rect, direction: Direction) -> int {
    end_of(area, direction) - start_of(area, direction)
}

/// Whether a rectangle spans the side of another that is not divided.
pub open spec fn spans(part: Rect, direction: Direction, area: Rect) -> bool {
    match direction {
        Direction::Horizontal => part.y == area.y && part.height == area.height && part.x
            + part.width <= u16::MAX,
        Direction::Vertical => part.x == area.x && part.width == area.width && part.y + part.height
            <= u16::MAX,
    }
}

/// Whether rectangles follow one another from the start of an area, without a
/// gap and without leaving it.
pub open spec fn adjoin(parts: Seq<Rect>, direction: Direction, area: Rect) -> bool {
    &&& parts.len() > 0 ==> start_of(parts[0], direction) == start_of(area, direction)
    &&& forall|i: int|
        0 < i < parts.len() ==> start_of(#[trigger] parts[i], direction) == end_of(
            parts[i - 1],
            direction,
        )
    &&& forall|i: int|
        0 <= i < parts.len() ==> end_of(#[trigger] parts[i], direction) <= end_of(area, direction)
}

/// Whether the last rectangle ends where the area ends.
pub open spec fn fill_up(parts: Seq<Rect>, direction: Direction, area: Rect) -> bool {
    parts.len() > 0 && end_of(parts.last(), direction) == end_of(area, direction)
}

/// What constraints ask for at least.
pub open spec fn total_wanted(constraints: Seq<Constraint>) -> int
    decreases constraints.len(),
{
    if constraints.len() == 0 {
        0
    } else {
        total_wanted(constraints.drop_last()) + (match constraints.last() {
            Constraint::Length(n) => n as int,
            Constraint::Min(n) => n as int,
            _ => 0,
        })
    }
}

/// Whether one part, the one at an index, takes what the fixed lengths of the
/// others leave.
pub open spec fn one_grows(constraints: Seq<Constraint>, index: int) -> bool {
    &&& 0 <= index < constraints.len()
    &&& constraints[index] is Min
    &&& constraints[index]->Min_0 <= i16::MAX
    &&& forall|i: int|
        0 <= i < constraints.len() && i != index ==> #[trigger] constraints[i] is Length
}

/// The share of the parts of weighted constraints up to an index.
pub open spec fn weight_before(constraints: Seq<Constraint>, index: int) -> int
    decreases index,
{
    if index <= 0 {
        0
    } else {
        weight_before(constraints, index - 1) + (match constraints[index - 1] {
            Constraint::Fill(weight) => weight as int,
            _ => 0,
        })
    }
}

/// Whether every constraint is a weight above zero.
pub open spec fn all_weighted(constraints: Seq<Constraint>) -> bool {
    forall|i: int|
        0 <= i < constraints.len() ==> (#[trigger] constraints[i] matches Constraint::Fill(weight)
            && weight > 0)
}

/// Whether a share of a length, in hundredths of a column or row, is met to
/// within half a column or row and one hundredth.
pub open spec fn near_share(length: int, weight: int, total: int, whole: int) -> bool {
    -51 * total <= 100 * (length * total - whole * weight) <= 51 * total
}

/// Whether rectangles are a division of another by constraints, of which there
/// are few enough for their strengths to keep their order.
///
/// There is one rectangle for each constraint, each spanning the side that is
/// not divided, and they follow one another from the start of the area.
///
/// - Where one part grows and the others have lengths that leave it what it
///   wants, each of the others has its length and the area is filled.
/// - Two percentages that make up the whole meet at the nearest column or row.
/// - Weighted parts fill the area in proportion to their weights, to the
///   nearest column or row.
pub open spec fn divides(
    parts: Seq<Rect>,
    direction: Direction,
    constraints: Seq<Constraint>,
    area: Rect,
) -> bool {
    let whole = extent(area, direction);
    &&& parts.len() == constraints.len()
    &&& forall|i: int| 0 <= i < parts.len() ==> spans(#[trigger] parts[i], direction, area)
    &&& constraints.len() <= 9 ==> {
        &&& adjoin(parts, direction, area)
        &&& forall|g: int| #[trigger]
            one_grows(constraints, g) && total_wanted(constraints) <= whole ==> {
                &&& fill_up(parts, direction, area)
                &&& forall|i: int|
                    0 <= i < parts.len() && i != g ==> extent(#[trigger] parts[i], direction)
                        == constraints[i]->Length_0
            }
        &&& two_shares(constraints) ==> {
            &&& fill_up(parts, direction, area)
            &&& extent(parts[0], direction) == percent_of(
                whole,
                constraints[0]->Percentage_0 as int,
            )
        }
        &&& all_weighted(constraints) && constraints.len() > 0 ==> {
            &&& fill_up(parts, direction, area)
            &&& forall|i: int|
                0 <= i < parts.len() ==> near_share(
                    end_of(#[trigger] parts[i], direction) - start_of(area, direction),
                    weight_before(constraints, i + 1),
                    weight_before(constraints, constraints.len() as int),
                    whole,
                )
        }
    }
}

/// Whether two percentages make up the whole.
pub open spec fn two_shares(constraints: Seq<Constraint>) -> bool {
    &&& constraints.len() == 2
    &&& constraints[0] is Percentage
    &&& constraints[1] is Percentage
    &&& constraints[0]->Percentage_0 + constraints[1]->Percentage_0 == 100
}

/// A percentage of a length, to the nearest column or row.
pub open spec fn percent_of(whole: int, share: int) -> int {
    (whole * share + 50) / 100
}

/// Divides a rectangle as `ratatui::layout::Layout::split` does, with no margin
/// and no spacing.
///
/// The parts follow one another because all their edges are required to lie in
/// the area and the gaps between them are held at nothing more strongly than
/// any size is wanted. Lengths are set to the amount asked for, percentages are
/// rounded to the nearest cell, and weighted parts fill what is there in
/// proportion: this is what the constraints are documented to do where they can
/// all be met. Nothing is said of a division whose constraints cannot all be
/// met, beyond that its parts follow one another: the solver then chooses, in
/// an order that follows its hash maps.
#[verifier::external_body]
pub(crate) fn split(direction: Direction, constraints: &Vec<Constraint>, area: Rect) -> (parts: Vec<
    Rect,
>)
    ensures
        divides(parts@, direction, constraints@, area),
{
    let wanted = constraints.iter().map(|constraint| match *constraint {
        Constraint::Length(n) => layout::Constraint::Length(n),
        Constraint::Min(n) => layout::Constraint::Min(n),
        Constraint::Percentage(n) => layout::Constraint::Percentage(n),
        Constraint::Fill(n) => layout::Constraint::Fill(n),
    });
    let layout = match direction {
        Direction::Horizontal => layout::Layout::horizontal(wanted),
        Direction::Vertical => layout::Layout::vertical(wanted),
    };
    let Rect { x, y, width, height } = area;
    let parts = layout.split(layout::Rect { x, y, width, height });
    parts.iter().map(|r| Rect { x: r.x, y: r.y, width: r.width, height: r.height }).collect()
}

/// A rectangle inside another shares its positions.
pub proof fn law_borders_leave_a_part(area: Rect, borders: Borders, point: Position)
    requires
        area.x + area.width <= u16::MAX,
        area.y + area.height <= u16::MAX,
        covers(inside(area, borders), point),
    ensures
        covers(area, point),
{
}

} // verus!
