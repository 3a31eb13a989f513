//! The movable edge between the Resource Panels and the Details Pane.

use vstd::prelude::*;

verus! {

/// What one press of a resize Command moves the share by.
///
/// Twenty presses cross the whole width, which is few enough to reach the size
/// the user wants and many enough to stop where they meant to.
pub const STEP: u16 = 5;

/// The narrowest share either Pane may be left with.
///
/// A share rather than a column count, so the rule holds without consulting a
/// terminal width that changes. On an eighty-column terminal a quarter is
/// twenty columns, which still holds a Resource name inside its borders.
pub const MINIMUM_PERCENT: u16 = 25;

pub const MAXIMUM_PERCENT: u16 = 75;

/// The share that the Resource Panels hold when the user has chosen none.
pub const DEFAULT_PERCENT: u16 = 48;

/// The share of the Active Workspace's width the Resource Panels hold.
///
/// A share rather than a column count: the user chose a proportion of their
/// screen, so a terminal that changes size keeps the split they asked for
/// instead of a width that only fitted the terminal they asked in.
#[derive(Clone, Copy, Debug, PartialEq, Eq)]
pub struct PaneBoundary {
    resources_percent: u16,
    /// The column of the boundary that the pointer took hold of.
    grab: Option<u16>,
}

/// A share and whether the pointer holds it.
pub struct BoundaryModel {
    pub percent: int,
    pub grab: Option<u16>,
}

impl View for PaneBoundary {
    type V = BoundaryModel;

    closed spec fn view(&self) -> BoundaryModel {
        BoundaryModel { percent: self.resources_percent as int, grab: self.grab }
    }
}

/// The nearest share that leaves both Panes usable.
pub open spec fn usable(percent: int) -> int {
    if percent < MINIMUM_PERCENT {
        MINIMUM_PERCENT as int
    } else if percent > MAXIMUM_PERCENT {
        MAXIMUM_PERCENT as int
    } else {
        percent
    }
}

impl BoundaryModel {
    /// Both Panes are usable.
    pub open spec fn in_range(self) -> bool {
        MINIMUM_PERCENT <= self.percent <= MAXIMUM_PERCENT
    }

    pub open spec fn moved_left(self) -> BoundaryModel {
        BoundaryModel { percent: usable(self.percent - STEP), ..self }
    }

    pub open spec fn moved_right(self) -> BoundaryModel {
        BoundaryModel { percent: usable(self.percent + STEP), ..self }
    }

    pub open spec fn dragged_to(self, share: u16) -> BoundaryModel {
        BoundaryModel { percent: usable(share as int), ..self }
    }

    pub open spec fn grabbed_at(self, column: u16) -> BoundaryModel {
        BoundaryModel { grab: Some(column), ..self }
    }

    pub open spec fn released(self) -> BoundaryModel {
        BoundaryModel { grab: None, ..self }
    }
}

/// The boundary of a first run.
pub open spec fn default_boundary() -> BoundaryModel {
    BoundaryModel { percent: DEFAULT_PERCENT as int, grab: None }
}

impl Default for PaneBoundary {
    fn default() -> (boundary: Self)
        ensures
            boundary@ == default_boundary(),
    {
        PaneBoundary::new(DEFAULT_PERCENT)
    }
}

impl PaneBoundary {
    #[verifier::type_invariant]
    spec fn usable_share(self) -> bool {
        MINIMUM_PERCENT <= self.resources_percent <= MAXIMUM_PERCENT
    }

    fn share(percent: u16, grab: Option<u16>) -> (boundary: Self)
        ensures
            boundary@ == (BoundaryModel { percent: usable(percent as int), grab }),
            boundary@.in_range(),
    {
        let resources_percent: u16 = if percent < MINIMUM_PERCENT {
            MINIMUM_PERCENT
        } else if percent > MAXIMUM_PERCENT {
            MAXIMUM_PERCENT
        } else {
            percent
        };
        PaneBoundary { resources_percent, grab }
    }

    /// Holds the share inside the range both Panes stay usable in.
    ///
    /// Clamping here rather than at each caller makes the range a property of
    /// the boundary itself, so no way of moving it can leave the range.
    pub fn new(resources_percent: u16) -> (boundary: Self)
        ensures
            boundary@ == (BoundaryModel { percent: usable(resources_percent as int), grab: None }),
            boundary@.in_range(),
    {
        PaneBoundary::share(resources_percent, None)
    }

    /// Whether a share is one that a boundary can have.
    pub fn is_valid_percent(percent: u16) -> (valid: bool)
        ensures
            valid == (usable(percent as int) == percent),
    {
        MINIMUM_PERCENT <= percent && percent <= MAXIMUM_PERCENT
    }

    pub fn resources_percent(self) -> (percent: u16)
        ensures
            percent == self@.percent,
            self@.in_range(),
    {
        proof {
            use_type_invariant(&self);
        }
        self.resources_percent
    }

    /// The column of the boundary that the pointer holds, while it holds one.
    pub fn grab(self) -> (grab: Option<u16>)
        ensures
            grab == self@.grab,
    {
        self.grab
    }

    pub fn moved_left(self) -> (moved: Self)
        ensures
            moved@ == self@.moved_left(),
            moved@.in_range(),
    {
        PaneBoundary::share(self.resources_percent.saturating_sub(STEP), self.grab)
    }

    pub fn moved_right(self) -> (moved: Self)
        ensures
            moved@ == self@.moved_right(),
            moved@.in_range(),
    {
        PaneBoundary::share(self.resources_percent.saturating_add(STEP), self.grab)
    }

    /// Takes hold of the boundary at one of its columns.
    pub fn grabbed_at(self, column: u16) -> (held: Self)
        ensures
            held@ == self@.grabbed_at(column),
            held@.in_range(),
    {
        proof {
            use_type_invariant(&self);
        }
        PaneBoundary { resources_percent: self.resources_percent, grab: Some(column) }
    }

    /// Carries the boundary to a share, held as before.
    pub fn dragged_to(self, share: u16) -> (moved: Self)
        ensures
            moved@ == self@.dragged_to(share),
            moved@.in_range(),
    {
        PaneBoundary::share(share, self.grab)
    }

    /// Lets go of the boundary where it is.
    pub fn released(self) -> (free: Self)
        ensures
            free@ == self@.released(),
            free@.in_range(),
    {
        proof {
            use_type_invariant(&self);
        }
        PaneBoundary { resources_percent: self.resources_percent, grab: None }
    }
}

/// No way of moving the boundary leaves the range.
pub proof fn law_every_move_stays_in_range(boundary: BoundaryModel, share: u16, column: u16)
    requires
        boundary.in_range(),
    ensures
        boundary.moved_left().in_range(),
        boundary.moved_right().in_range(),
        boundary.dragged_to(share).in_range(),
        boundary.grabbed_at(column).in_range(),
        boundary.released().in_range(),
{
}

/// A move one way is undone by a move the other way, unless an end was met.
pub proof fn law_moves_undo_each_other(boundary: BoundaryModel)
    requires
        boundary.in_range(),
    ensures
        boundary.percent + STEP <= MAXIMUM_PERCENT ==> boundary.moved_right().moved_left()
            == boundary,
        boundary.percent - STEP >= MINIMUM_PERCENT ==> boundary.moved_left().moved_right()
            == boundary,
{
}

} // verus!
