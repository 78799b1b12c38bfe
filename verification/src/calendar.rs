//! The calendar: appointments in the order in which they were added, and the
//! insertion that keeps them free of overlaps.

use crate::datetime::{Civil, DateTime};
use crate::error::CalendarError;
use crate::schedule::{Schedule, ScheduleView};
use vstd::prelude::*;

verus! {

/// The appointments of `schedules`, each as what it is.
pub open spec fn views(schedules: Seq<Schedule>) -> Seq<ScheduleView> {
    schedules.map_values(|s: Schedule| s@)
}

/// Some appointment of `cal` overlaps `candidate`.
pub open spec fn conflicts_with(cal: Seq<ScheduleView>, candidate: ScheduleView) -> bool {
    exists|i: int| 0 <= i < cal.len() && #[trigger] cal[i].overlaps(candidate)
}

/// The appointment at `at` is the first of `cal` that overlaps `candidate`.
pub open spec fn first_conflict_at(cal: Seq<ScheduleView>, candidate: ScheduleView, at: int) -> bool {
    &&& 0 <= at < cal.len()
    &&& cal[at].overlaps(candidate)
    &&& forall|j: int| 0 <= j < at ==> !(#[trigger] cal[j]).overlaps(candidate)
}

/// The appointment that an insertion into `cal` tries to add: it gets the
/// number of appointments in `cal` as its id.
pub open spec fn candidate_for(
    cal: Seq<ScheduleView>,
    subject: Seq<char>,
    start: Civil,
    end: Civil,
) -> ScheduleView {
    ScheduleView { id: cal.len(), subject, start, end }
}

/// Every appointment of `cal` has its position as its id: 0, 1, 2 and so on.
pub open spec fn numbered(cal: Seq<ScheduleView>) -> bool {
    forall|i: int| 0 <= i < cal.len() ==> (#[trigger] cal[i]).id == i
}

/// No two appointments of `cal` overlap.
pub open spec fn conflict_free(cal: Seq<ScheduleView>) -> bool {
    forall|i: int, j: int|
        0 <= i < j < cal.len() ==> !(#[trigger] cal[i]).overlaps(#[trigger] cal[j])
}

/// `after` is what a successful insertion makes of `before`: one appointment
/// more, at the end, that overlaps none of those before it and has their
/// number as its id.
pub open spec fn grown_by_insert(before: Seq<ScheduleView>, after: Seq<ScheduleView>) -> bool {
    exists|subject: Seq<char>, start: Civil, end: Civil|
        {
            &&& !conflicts_with(before, #[trigger] candidate_for(before, subject, start, end))
            &&& after == before.push(candidate_for(before, subject, start, end))
        }
}

/// From state `k` of `history` to the next is one successful insertion.
pub open spec fn is_insertion_step(history: Seq<Seq<ScheduleView>>, k: int) -> bool {
    grown_by_insert(history[k], history[k + 1])
}

/// `history` lists the states of a calendar that starts empty and grows by
/// successful insertions only.
pub open spec fn insertions_from_empty(history: Seq<Seq<ScheduleView>>) -> bool {
    &&& history.len() > 0
    &&& history[0] == Seq::<ScheduleView>::empty()
    &&& forall|k: int| 0 <= k < history.len() - 1 ==> #[trigger] is_insertion_step(history, k)
}

/// An ordered collection of appointments.
#[derive(Debug, Clone, PartialEq, Eq)]
pub struct Calendar {
    schedules: Vec<Schedule>,
}

impl View for Calendar {
    type V = Seq<ScheduleView>;

    closed spec fn view(&self) -> Seq<ScheduleView> {
        views(self.schedules@)
    }
}

impl Calendar {
    /// A calendar without appointments.
    pub fn new() -> (cal: Calendar)
        ensures
            cal@ == Seq::<ScheduleView>::empty(),
    {
        let cal = Calendar { schedules: Vec::new() };
        assert(cal@ =~= Seq::<ScheduleView>::empty());
        cal
    }

    /// A calendar of the given appointments, in their order, as they are.
    pub fn from_schedules(schedules: Vec<Schedule>) -> (cal: Calendar)
        ensures
            cal@ == views(schedules@),
    {
        Calendar { schedules }
    }

    /// The appointments in the order in which the calendar holds them, which
    /// is the order in which they were added.
    pub fn list(&self) -> (schedules: &[Schedule])
        ensures
            views(schedules@) == self@,
    {
        self.schedules.as_slice()
    }

    /// The first appointment that overlaps `candidate`, by its position, if
    /// there is one.
    pub fn first_conflict(&self, candidate: &Schedule) -> (r: Option<usize>)
        ensures
            match r {
                Some(at) => first_conflict_at(self@, candidate@, at as int),
                None => !conflicts_with(self@, candidate@),
            },
    {
        let mut i: usize = 0;
        while i < self.schedules.len()
            invariant
                i <= self.schedules.len(),
                forall|j: int| 0 <= j < i ==> !(#[trigger] self@[j]).overlaps(candidate@),
            decreases self.schedules.len() - i,
        {
            if self.schedules[i].intersects(candidate) {
                return Some(i);
            }
            i += 1;
        }
        None
    }

    /// Adds an appointment with the given label and interval, unless it
    /// overlaps one that is already there. The new appointment goes to the end
    /// and gets the number of appointments before it as its id, which is
    /// returned. On a conflict nothing changes.
    pub fn insert(&mut self, subject: String, start: DateTime, end: DateTime) -> (r: Result<
        u64,
        CalendarError,
    >)
        ensures
            match r {
                Ok(id) => {
                    &&& !conflicts_with(old(self)@, candidate_for(old(self)@, subject@, start@, end@))
                    &&& id == old(self)@.len()
                    &&& final(self)@ == old(self)@.push(
                        candidate_for(old(self)@, subject@, start@, end@),
                    )
                },
                Err(e) => {
                    &&& e == CalendarError::ScheduleConflict
                    &&& conflicts_with(old(self)@, candidate_for(old(self)@, subject@, start@, end@))
                    &&& *final(self) == *old(self)
                },
            },
            r is Ok ==> grown_by_insert(old(self)@, final(self)@),
            numbered(old(self)@) ==> numbered(final(self)@),
            conflict_free(old(self)@) ==> conflict_free(final(self)@),
    {
        let id: u64 = self.schedules.len() as u64;
        let candidate = Schedule { id, subject, start, end };
        match self.first_conflict(&candidate) {
            Some(_) => Err(CalendarError::ScheduleConflict),
            None => {
                self.schedules.push(candidate);
                assert(self@ =~= old(self)@.push(candidate@));
                Ok(id)
            },
        }
    }
}

/// After `n` successful insertions into an empty calendar there are `n`
/// appointments, their ids are 0, 1, ..., `n` - 1 in the order of insertion,
/// no two of them overlap, and each earlier state is the beginning of the
/// calendar as it is then.
pub proof fn lemma_insertions_number_and_keep_apart(history: Seq<Seq<ScheduleView>>, n: int)
    requires
        insertions_from_empty(history),
        0 <= n < history.len(),
    ensures
        history[n].len() == n,
        numbered(history[n]),
        conflict_free(history[n]),
        forall|k: int| 0 <= k <= n ==> #[trigger] history[k] == history[n].take(k),
    decreases n,
{
    if n == 0 {
        assert(history[0].take(0) =~= history[0]);
    } else {
        lemma_insertions_number_and_keep_apart(history, n - 1);
        assert(is_insertion_step(history, n - 1));
        let before = history[n - 1];
        let after = history[n];
        assert(after.len() == n);
        assert forall|k: int| 0 <= k <= n implies #[trigger] history[k] == after.take(k) by {
            if k == n {
                assert(after.take(n) =~= after);
            } else {
                assert(before.take(k) =~= after.take(k));
            }
        }
        assert forall|i: int, j: int| 0 <= i < j < after.len() implies !(#[trigger] after[i]).overlaps(
            #[trigger] after[j],
        ) by {
            if j == n - 1 {
                assert(!before[i].overlaps(after[j]));
            } else {
                assert(after[i] == before[i] && after[j] == before[j]);
            }
        }
    }
}

} // verus!
