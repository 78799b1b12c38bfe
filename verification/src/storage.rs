//! The calendar as the store holds it: a list of records in which the
//! date-times are text. Reading the store's document into records, and
//! writing records out, is left to the program around the library.

use crate::calendar::{views, Calendar};
use crate::datetime::{iso_text, names_a_datetime, parsed, DateTime};
use crate::error::CalendarError;
use crate::schedule::{Schedule, ScheduleView};
use vstd::prelude::*;

verus! {

/// What a record is: an appointment with its date-times as text.
pub struct RecordView {
    pub id: nat,
    pub subject: Seq<char>,
    pub start: Seq<char>,
    pub end: Seq<char>,
}

/// The record that is kept for an appointment.
pub open spec fn record_of(schedule: ScheduleView) -> RecordView {
    RecordView {
        id: schedule.id,
        subject: schedule.subject,
        start: iso_text(schedule.start),
        end: iso_text(schedule.end),
    }
}

/// Both date-times of the record can be read.
pub open spec fn reads(record: RecordView) -> bool {
    names_a_datetime(parsed(record.start)) && names_a_datetime(parsed(record.end))
}

/// The appointment that a record that can be read stands for.
pub open spec fn schedule_of(record: RecordView) -> ScheduleView {
    ScheduleView {
        id: record.id,
        subject: record.subject,
        start: parsed(record.start).unwrap(),
        end: parsed(record.end).unwrap(),
    }
}

/// Every record of the document can be read.
pub open spec fn all_read(document: Seq<RecordView>) -> bool {
    forall|i: int| 0 <= i < document.len() ==> reads(#[trigger] document[i])
}

/// The calendar that a document stands for: its appointments, in its order.
pub open spec fn loaded(document: Seq<RecordView>) -> Seq<ScheduleView> {
    document.map_values(|record: RecordView| schedule_of(record))
}

/// The document that is kept for a calendar: its records, in its order.
pub open spec fn saved(cal: Seq<ScheduleView>) -> Seq<RecordView> {
    cal.map_values(|schedule: ScheduleView| record_of(schedule))
}

/// The records of `records`, each as what it is.
pub open spec fn record_views(records: Seq<Record>) -> Seq<RecordView> {
    records.map_values(|record: Record| record@)
}

/// One appointment as the store holds it.
#[derive(Debug, Clone, PartialEq, Eq)]
pub struct Record {
    pub id: u64,
    pub subject: String,
    /// The start, as a text such as `2024-01-01T09:00:00`.
    pub start: String,
    /// The end, in the same form.
    pub end: String,
}

impl View for Record {
    type V = RecordView;

    open spec fn view(&self) -> RecordView {
        RecordView {
            id: self.id as nat,
            subject: self.subject@,
            start: self.start@,
            end: self.end@,
        }
    }
}

impl Schedule {
    /// The appointment that a record stands for. A record with a date-time
    /// that cannot be read is malformed storage.
    pub fn from_record(record: &Record) -> (r: Result<Schedule, CalendarError>)
        ensures
            match r {
                Ok(schedule) => reads(record@) && schedule@ == schedule_of(record@),
                Err(e) => e == CalendarError::MalformedStorage && !reads(record@),
            },
    {
        let start = match DateTime::parse(record.start.as_str()) {
            Ok(moment) => moment,
            Err(_) => {
                return Err(CalendarError::MalformedStorage);
            },
        };
        let end = match DateTime::parse(record.end.as_str()) {
            Ok(moment) => moment,
            Err(_) => {
                return Err(CalendarError::MalformedStorage);
            },
        };
        Ok(Schedule { id: record.id, subject: record.subject.clone(), start, end })
    }

    /// The record that is kept for this appointment.
    pub fn to_record(&self) -> (record: Record)
        ensures
            record@ == record_of(self@),
    {
        Record {
            id: self.id,
            subject: self.subject.clone(),
            start: self.start.to_iso_text(),
            end: self.end.to_iso_text(),
        }
    }
}

impl Calendar {
    /// The calendar that the records stand for, with the appointments in the
    /// order of the records and under the ids that the records give them.
    /// Records of which one cannot be read are malformed storage.
    pub fn load(records: &[Record]) -> (r: Result<Calendar, CalendarError>)
        ensures
            match r {
                Ok(cal) => all_read(record_views(records@)) && cal@ == loaded(
                    record_views(records@),
                ),
                Err(e) => e == CalendarError::MalformedStorage && !all_read(record_views(records@)),
            },
    {
        let mut schedules: Vec<Schedule> = Vec::new();
        let mut i: usize = 0;
        while i < records.len()
            invariant
                i <= records.len(),
                schedules.len() == i,
                forall|j: int| 0 <= j < i ==> reads(#[trigger] record_views(records@)[j]),
                forall|j: int|
                    0 <= j < i ==> (#[trigger] schedules[j])@ == schedule_of(
                        record_views(records@)[j],
                    ),
            decreases records.len() - i,
        {
            match Schedule::from_record(&records[i]) {
                Ok(schedule) => {
                    schedules.push(schedule);
                },
                Err(_) => {
                    assert(!reads(record_views(records@)[i as int]));
                    return Err(CalendarError::MalformedStorage);
                },
            }
            i += 1;
        }
        let cal = Calendar::from_schedules(schedules);
        assert(cal@ =~= loaded(record_views(records@)));
        Ok(cal)
    }

    /// The records that are kept for this calendar, in its order.
    pub fn save(&self) -> (records: Vec<Record>)
        ensures
            record_views(records@) == saved(self@),
    {
        let schedules = self.list();
        let mut records: Vec<Record> = Vec::new();
        let mut i: usize = 0;
        while i < schedules.len()
            invariant
                i <= schedules.len(),
                views(schedules@) == self@,
                records.len() == i,
                forall|j: int| 0 <= j < i ==> (#[trigger] records[j])@ == record_of(self@[j]),
            decreases schedules.len() - i,
        {
            records.push(schedules[i].to_record());
            i += 1;
        }
        assert(record_views(records@) =~= saved(self@));
        records
    }
}

/// Loading a document and saving the calendar gives the document back,
/// record for record, if every date-time text in it is the text that is
/// written for the date-time that is read from it.
pub proof fn lemma_save_after_load_gives_the_document(document: Seq<RecordView>)
    requires
        all_read(document),
        forall|i: int|
            0 <= i < document.len() ==> record_of(schedule_of(#[trigger] document[i]))
                == document[i],
    ensures
        saved(loaded(document)) == document,
{
    assert(saved(loaded(document)) =~= document);
}

/// Saving a calendar and loading the document gives the calendar back,
/// appointment for appointment, if every date-time in it is the one that is
/// read from the text that is written for it.
pub proof fn lemma_load_after_save_gives_the_calendar(cal: Seq<ScheduleView>)
    requires
        forall|i: int|
            0 <= i < cal.len() ==> schedule_of(record_of(#[trigger] cal[i])) == cal[i],
    ensures
        loaded(saved(cal)) == cal,
{
    assert(loaded(saved(cal)) =~= cal);
}

} // verus!
