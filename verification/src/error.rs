//! What the library reports when it cannot do what was asked.

use vstd::prelude::*;

verus! {

/// The failures that the library itself detects.
#[derive(Debug, Clone, Copy, PartialEq, Eq)]
pub enum CalendarError {
    /// A text that was given as a date-time is not one.
    MalformedInput,
    /// What the store holds cannot be read as a calendar.
    MalformedStorage,
    /// The appointment to add overlaps one that the calendar already holds.
    ScheduleConflict,
}

} // verus!
