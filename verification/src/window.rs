//! The window's length and the closure policy of its boundaries. Both are
//! atomic values here: they are carried, compared and persisted, never
//! interpreted.
use vstd::prelude::*;

verus! {

/// Which boundaries of a window interval belong to the window.
#[derive(Clone, Copy, Debug, PartialEq, Eq, Structural, Hash)]
pub enum ClosedWindow {
    Left,
    Right,
    Both,
    /// Neither boundary belongs to the window.
    Neither,
}

/// A time span, possibly calendar-relative: months, weeks and days are kept
/// apart from the nanoseconds because their length depends on the calendar.
#[derive(Clone, Copy, Debug, PartialEq, Eq, Structural, Hash)]
pub struct Duration {
    pub months: i64,
    pub weeks: i64,
    pub days: i64,
    pub nsecs: i64,
    /// The span points backwards in time.
    pub negative: bool,
    /// The span counts rows, not time.
    pub parsed_int: bool,
}

impl Duration {
    /// A span of `nsecs` nanoseconds with no calendar part.
    pub fn from_nsecs(nsecs: i64) -> (d: Duration)
        ensures
            d == (Duration {
                months: 0,
                weeks: 0,
                days: 0,
                nsecs: nsecs,
                negative: false,
                parsed_int: false,
            }),
    {
        Duration { months: 0, weeks: 0, days: 0, nsecs, negative: false, parsed_int: false }
    }

    /// A span of `days` calendar days.
    pub fn from_days(days: i64) -> (d: Duration)
        ensures
            d == (Duration {
                months: 0,
                weeks: 0,
                days: days,
                nsecs: 0,
                negative: false,
                parsed_int: false,
            }),
    {
        Duration { months: 0, weeks: 0, days, nsecs: 0, negative: false, parsed_int: false }
    }
}

} // verus!
