//! The calendar as a table of text: one line of headings, then one line for
//! each appointment, the cells of a line parted by tabs.

use crate::calendar::{views, Calendar};
use crate::datetime::display_text;
use crate::schedule::{Schedule, ScheduleView};
use vstd::prelude::*;

verus! {

/// The character for a digit from 0 to 9.
pub open spec fn digit(d: nat) -> char {
    if d == 0 {
        '0'
    } else if d == 1 {
        '1'
    } else if d == 2 {
        '2'
    } else if d == 3 {
        '3'
    } else if d == 4 {
        '4'
    } else if d == 5 {
        '5'
    } else if d == 6 {
        '6'
    } else if d == 7 {
        '7'
    } else if d == 8 {
        '8'
    } else {
        '9'
    }
}

/// A number in decimal digits, without leading zeros.
pub open spec fn decimal(n: nat) -> Seq<char>
    decreases n,
{
    if n < 10 {
        seq![digit(n)]
    } else {
        decimal(n / 10).push(digit(n % 10))
    }
}

/// Four cells as one line, with a tab between each two.
pub open spec fn joined(a: Seq<char>, b: Seq<char>, c: Seq<char>, d: Seq<char>) -> Seq<char> {
    a + seq!['\t'] + b + seq!['\t'] + c + seq!['\t'] + d
}

/// The line of headings.
pub open spec fn header_text() -> Seq<char> {
    joined("ID"@, "Start"@, "End"@, "Subject"@)
}

/// The line for one appointment: its id, its start, its end and its label.
pub open spec fn row_text(schedule: ScheduleView) -> Seq<char> {
    joined(
        decimal(schedule.id),
        display_text(schedule.start),
        display_text(schedule.end),
        schedule.subject,
    )
}

/// The table for a calendar: the headings, then the appointments in order.
pub open spec fn table_text(cal: Seq<ScheduleView>) -> Seq<Seq<char>> {
    seq![header_text()] + cal.map_values(|schedule: ScheduleView| row_text(schedule))
}

/// What each of the lines holds.
pub open spec fn texts(lines: Seq<String>) -> Seq<Seq<char>> {
    lines.map_values(|line: String| line@)
}

fn digit_str(d: u64) -> (s: &'static str)
    requires
        d < 10,
    ensures
        s@ == seq![digit(d as nat)],
{
    proof {
        reveal_strlit("0");
        reveal_strlit("1");
        reveal_strlit("2");
        reveal_strlit("3");
        reveal_strlit("4");
        reveal_strlit("5");
        reveal_strlit("6");
        reveal_strlit("7");
        reveal_strlit("8");
        reveal_strlit("9");
    }
    let s: &'static str = if d == 0 {
        "0"
    } else if d == 1 {
        "1"
    } else if d == 2 {
        "2"
    } else if d == 3 {
        "3"
    } else if d == 4 {
        "4"
    } else if d == 5 {
        "5"
    } else if d == 6 {
        "6"
    } else if d == 7 {
        "7"
    } else if d == 8 {
        "8"
    } else {
        "9"
    };
    assert(s@ =~= seq![digit(d as nat)]);
    s
}

/// Writes a number in decimal digits.
pub fn decimal_text(n: u64) -> (text: String)
    ensures
        text@ == decimal(n as nat),
    decreases n,
{
    if n < 10 {
        String::from_str(digit_str(n))
    } else {
        let mut text = decimal_text(n / 10);
        text.append(digit_str(n % 10));
        assert(text@ =~= decimal(n as nat));
        text
    }
}

/// Joins four cells to one line, with a tab between each two.
pub fn join_row(a: &str, b: &str, c: &str, d: &str) -> (row: String)
    ensures
        row@ == joined(a@, b@, c@, d@),
{
    proof {
        reveal_strlit("\t");
    }
    let mut row = String::from_str(a);
    row.append("\t");
    row.append(b);
    row.append("\t");
    row.append(c);
    row.append("\t");
    row.append(d);
    assert(row@ =~= joined(a@, b@, c@, d@));
    row
}

/// The line of headings: `ID`, `Start`, `End`, `Subject`.
pub fn header() -> (row: String)
    ensures
        row@ == header_text(),
{
    join_row("ID", "Start", "End", "Subject")
}

impl Schedule {
    /// The line of the table for this appointment.
    pub fn row(&self) -> (row: String)
        ensures
            row@ == row_text(self@),
    {
        let id = decimal_text(self.id);
        let start = self.start.to_text();
        let end = self.end.to_text();
        join_row(id.as_str(), start.as_str(), end.as_str(), self.subject.as_str())
    }
}

impl Calendar {
    /// The calendar as a table: the line of headings, then one line for each
    /// appointment, in the order in which the calendar holds them.
    pub fn table(&self) -> (lines: Vec<String>)
        ensures
            texts(lines@) == table_text(self@),
    {
        let schedules = self.list();
        let mut lines: Vec<String> = Vec::new();
        lines.push(header());
        let mut i: usize = 0;
        while i < schedules.len()
            invariant
                i <= schedules.len(),
                views(schedules@) == self@,
                lines.len() == i + 1,
                lines[0]@ == header_text(),
                forall|k: int| 1 <= k <= i ==> (#[trigger] lines[k])@ == row_text(self@[k - 1]),
            decreases schedules.len() - i,
        {
            lines.push(schedules[i].row());
            i += 1;
        }
        assert forall|k: int| 0 <= k < lines.len() implies texts(lines@)[k] == table_text(
            self@,
        )[k] by {
            if k > 0 {
                assert(lines[k]@ == row_text(self@[k - 1]));
            }
        }
        assert(texts(lines@) =~= table_text(self@));
        lines
    }
}

} // verus!
