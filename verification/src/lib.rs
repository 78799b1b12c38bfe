//! A personal calendar: appointments with half-open time intervals, kept in
//! the order in which they were added, and an insertion that refuses every
//! appointment that would overlap one already present.

pub mod calendar;
pub mod commands;
pub mod datetime;
pub mod error;
pub mod listing;
pub mod schedule;
pub mod storage;

pub use crate::calendar::Calendar;
pub use crate::datetime::{Civil, DateTime};
pub use crate::error::CalendarError;
pub use crate::schedule::{Schedule, ScheduleView};
pub use crate::storage::{Record, RecordView};
