//! Plain-value model of the recording's time control, as far as the share
//! modal reads it: the current loop/selection range and the current time
//! cursor.
//!
//! The host measures selection bounds on a continuous time axis. The modal
//! only ever needs the floor and the ceiling of such a bound, so a bound is
//! carried as its integer part together with a flag saying whether a
//! fractional remainder exists.

use vstd::prelude::*;

verus! {

/// A point on the time axis: the value lies in `[whole, whole + 1)`,
/// with `has_frac` saying whether it is strictly above `whole`.
#[derive(Clone, Copy, Debug, PartialEq, Eq, Structural)]
pub struct TimePoint {
    pub whole: i64,
    pub has_frac: bool,
}

impl TimePoint {
    /// The largest integer not above the point.
    pub open spec fn spec_floor(self) -> i64 {
        self.whole
    }

    /// The smallest integer not below the point, saturating at the top of
    /// the axis.
    pub open spec fn spec_ceil(self) -> i64 {
        if self.has_frac && self.whole < i64::MAX {
            (self.whole + 1) as i64
        } else {
            self.whole
        }
    }

    pub fn floor(&self) -> (r: i64)
        ensures
            r == self.spec_floor(),
    {
        self.whole
    }

    pub fn ceil(&self) -> (r: i64)
        ensures
            r == self.spec_ceil(),
    {
        if self.has_frac && self.whole < i64::MAX {
            self.whole + 1
        } else {
            self.whole
        }
    }
}

/// An inclusive integer time range, the form a shareable URL stores.
#[derive(Clone, Copy, Debug, PartialEq, Eq, Structural)]
pub struct TimeRange {
    pub min: i64,
    pub max: i64,
}

/// The loop/selection range currently active in the time control, on the
/// timeline it belongs to.
#[derive(Clone, Debug, PartialEq, Eq)]
pub struct LoopSelection {
    pub timeline: String,
    pub min: TimePoint,
    pub max: TimePoint,
}

/// A timeline together with an inclusive integer range on it, as stored in
/// a shareable URL's trim setting.
#[derive(Clone, Debug, PartialEq, Eq)]
pub struct TimeSelection {
    pub timeline: String,
    pub range: TimeRange,
}

impl TimeSelection {
    /// Trims a loop selection to URL form: the start is floored, the end is
    /// ceiled, and the timeline is kept.
    pub fn from_loop_selection(selection: &LoopSelection) -> (r: TimeSelection)
        ensures
            r == (TimeSelection {
                timeline: selection.timeline,
                range: TimeRange {
                    min: selection.min.spec_floor(),
                    max: selection.max.spec_ceil(),
                },
            }),
    {
        TimeSelection {
            timeline: selection.timeline.clone(),
            range: TimeRange { min: selection.min.floor(), max: selection.max.ceil() },
        }
    }
}

/// The current time cursor: a timeline and the time the cursor sits at.
#[derive(Clone, Debug, PartialEq, Eq)]
pub struct TimeCursor {
    pub timeline: String,
    pub time: i64,
}

/// What the share modal reads from the recording's time control each frame.
#[derive(Clone, Debug, PartialEq, Eq)]
pub struct TimeControl {
    pub loop_selection: Option<LoopSelection>,
    pub cursor: Option<TimeCursor>,
}

} // verus!
