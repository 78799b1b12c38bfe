//! The two commands, from what the store holds to what is shown or stored.
//! The program around the library reads the records, calls one of these, and
//! prints the lines or writes the records that come back.

use crate::calendar::{candidate_for, conflicts_with, Calendar};
use crate::datetime::DateTime;
use crate::error::CalendarError;
use crate::listing::{table_text, texts};
use crate::storage::{all_read, loaded, record_views, saved, Record};
use vstd::prelude::*;

verus! {

/// Lists the calendar that the records stand for: the line of headings, then
/// one line for each appointment, in the order of the records. Records of
/// which one cannot be read are malformed storage.
pub fn show_list(records: &[Record]) -> (r: Result<Vec<String>, CalendarError>)
    ensures
        match r {
            Ok(lines) => all_read(record_views(records@)) && texts(lines@) == table_text(
                loaded(record_views(records@)),
            ),
            Err(e) => e == CalendarError::MalformedStorage && !all_read(record_views(records@)),
        },
{
    match Calendar::load(records) {
        Ok(cal) => Ok(cal.table()),
        Err(e) => Err(e),
    }
}

/// Adds an appointment to the calendar that the records stand for, and gives
/// the records to store in their place: those of before, then the record of
/// the new appointment. Where the appointment overlaps one of the calendar,
/// that is a conflict, and there is nothing to store. Records of which one
/// cannot be read are malformed storage.
pub fn add_schedule(records: &[Record], subject: String, start: DateTime, end: DateTime) -> (r:
    Result<Vec<Record>, CalendarError>)
    ensures
        match r {
            Ok(stored) => {
                &&& all_read(record_views(records@))
                &&& !conflicts_with(
                    loaded(record_views(records@)),
                    candidate_for(loaded(record_views(records@)), subject@, start@, end@),
                )
                &&& record_views(stored@) == saved(
                    loaded(record_views(records@)).push(
                        candidate_for(loaded(record_views(records@)), subject@, start@, end@),
                    ),
                )
            },
            Err(e) => if all_read(record_views(records@)) {
                &&& e == CalendarError::ScheduleConflict
                &&& conflicts_with(
                    loaded(record_views(records@)),
                    candidate_for(loaded(record_views(records@)), subject@, start@, end@),
                )
            } else {
                e == CalendarError::MalformedStorage
            },
        },
{
    let mut cal = match Calendar::load(records) {
        Ok(cal) => cal,
        Err(e) => {
            return Err(e);
        },
    };
    match cal.insert(subject, start, end) {
        Ok(_) => Ok(cal.save()),
        Err(e) => Err(e),
    }
}

} // verus!
