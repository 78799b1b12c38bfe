//! One appointment, and the test that tells whether two of them overlap.

use crate::datetime::{Civil, DateTime};
use vstd::prelude::*;

verus! {

/// What an appointment is: a number, a label and the half-open interval
/// `[start, end)` of date-times that it occupies.
pub struct ScheduleView {
    pub id: nat,
    pub subject: Seq<char>,
    pub start: Civil,
    pub end: Civil,
}

impl ScheduleView {
    /// The interval has at least one date-time in it: it starts before it ends.
    pub open spec fn is_proper(self) -> bool {
        self.start.precedes(self.end)
    }

    /// `moment` lies in the interval: not before the start, and before the end.
    pub open spec fn contains(self, moment: Civil) -> bool {
        self.start.not_after(moment) && moment.precedes(self.end)
    }

    /// The interval lies inside that of `outer`.
    pub open spec fn within(self, outer: ScheduleView) -> bool {
        outer.start.not_after(self.start) && self.end.not_after(outer.end)
    }

    /// The interval begins and ends on one and the same day.
    pub open spec fn on_one_day(self) -> bool {
        self.start.same_day(self.end)
    }

    /// The two intervals overlap: each starts before the other ends.
    pub open spec fn overlaps(self, other: ScheduleView) -> bool {
        self.start.precedes(other.end) && other.start.precedes(self.end)
    }
}

/// One appointment.
#[derive(Debug, Clone, PartialEq, Eq)]
pub struct Schedule {
    /// The number under which the calendar holds it.
    pub id: u64,
    /// A free label; it may be empty, and two appointments may share it.
    pub subject: String,
    /// The first date-time of the appointment.
    pub start: DateTime,
    /// The first date-time after the appointment.
    pub end: DateTime,
}

impl View for Schedule {
    type V = ScheduleView;

    open spec fn view(&self) -> ScheduleView {
        ScheduleView {
            id: self.id as nat,
            subject: self.subject@,
            start: self.start@,
            end: self.end@,
        }
    }
}

impl Schedule {
    /// Whether this appointment and `other` overlap. Two appointments of which
    /// one ends when the other starts do not.
    pub fn intersects(&self, other: &Schedule) -> (r: bool)
        ensures
            r == self@.overlaps(other@),
    {
        self.start.is_before(&other.end) && other.start.is_before(&self.end)
    }
}

/// Whether two appointments overlap does not depend on which of them is asked.
pub proof fn lemma_overlap_is_symmetric(a: ScheduleView, b: ScheduleView)
    ensures
        a.overlaps(b) == b.overlaps(a),
{
}

/// Two appointments of which one ends at the very date-time at which the other
/// starts do not overlap.
pub proof fn lemma_touching_do_not_overlap(a: ScheduleView, b: ScheduleView)
    requires
        a.end == b.start,
    ensures
        !a.overlaps(b),
        !b.overlaps(a),
{
}

/// An appointment that starts before it ends overlaps every appointment
/// within whose interval its own interval lies.
pub proof fn lemma_contained_overlaps(inner: ScheduleView, outer: ScheduleView)
    requires
        inner.is_proper(),
        inner.within(outer),
    ensures
        inner.overlaps(outer),
        outer.overlaps(inner),
{
}

/// Two appointments that each start before they end, and that have no
/// date-time in common, do not overlap.
pub proof fn lemma_disjoint_do_not_overlap(a: ScheduleView, b: ScheduleView)
    requires
        a.is_proper(),
        b.is_proper(),
        forall|moment: Civil| !(a.contains(moment) && #[trigger] b.contains(moment)),
    ensures
        !a.overlaps(b),
{
    if a.overlaps(b) {
        let later: Civil = if a.start.precedes(b.start) {
            b.start
        } else {
            a.start
        };
        assert(a.contains(later) && b.contains(later));
    }
}

/// Two appointments that have a date-time in common overlap.
pub proof fn lemma_sharing_overlap(a: ScheduleView, b: ScheduleView, moment: Civil)
    requires
        a.contains(moment),
        b.contains(moment),
    ensures
        a.overlaps(b),
{
}

/// Two appointments that each begin and end on one day, and not both on the
/// same day, do not overlap, whatever their times of day.
pub proof fn lemma_different_days_do_not_overlap(a: ScheduleView, b: ScheduleView)
    requires
        a.on_one_day(),
        b.on_one_day(),
        !a.start.same_day(b.start),
    ensures
        !a.overlaps(b),
{
}

} // verus!
