use calendar::listing::{decimal_text, header, join_row};
use calendar::{Calendar, Civil, DateTime, Schedule};

fn moment(year: i32, month: u32, day: u32, hour: u32, minute: u32) -> DateTime {
    DateTime::from_civil(Civil { year, month, day, hour, minute, second: 0, nanosecond: 0 })
        .unwrap()
}

#[test]
fn a_number_is_written_in_decimal() {
    assert_eq!(decimal_text(0), "0");
    assert_eq!(decimal_text(7), "7");
    assert_eq!(decimal_text(10), "10");
    assert_eq!(decimal_text(1_234_567_890), "1234567890");
    assert_eq!(decimal_text(u64::MAX), "18446744073709551615");
    for n in 0..2000u64 {
        assert_eq!(decimal_text(n), n.to_string());
    }
}

#[test]
fn cells_are_joined_by_tabs() {
    assert_eq!(join_row("a", "b", "c", "d"), "a\tb\tc\td");
    assert_eq!(join_row("", "", "", ""), "\t\t\t");
    assert_eq!(join_row("1", "2 3", "", "x\ty"), "1\t2 3\t\tx\ty");
}

#[test]
fn the_headings_are_those_of_the_table() {
    assert_eq!(header(), "ID\tStart\tEnd\tSubject");
}

#[test]
fn a_schedule_is_one_line() {
    let schedule = Schedule {
        id: 0,
        subject: "Standup".to_string(),
        start: moment(2024, 1, 1, 9, 0),
        end: moment(2024, 1, 1, 9, 30),
    };
    assert_eq!(schedule.row(), "0\t2024-01-01 09:00:00\t2024-01-01 09:30:00\tStandup");
    let unnamed = Schedule { id: 12, subject: String::new(), ..schedule };
    assert_eq!(unnamed.row(), "12\t2024-01-01 09:00:00\t2024-01-01 09:30:00\t");
}

#[test]
fn an_empty_calendar_is_listed_as_its_headings() {
    assert_eq!(Calendar::new().table(), vec!["ID\tStart\tEnd\tSubject".to_string()]);
}

#[test]
fn the_table_keeps_the_stored_order() {
    let mut cal = Calendar::new();
    cal.insert("later".to_string(), moment(2024, 12, 15, 10, 0), moment(2024, 12, 15, 11, 0))
        .unwrap();
    cal.insert("earlier".to_string(), moment(2024, 12, 8, 9, 0), moment(2024, 12, 8, 10, 30))
        .unwrap();
    assert_eq!(
        cal.table(),
        vec![
            "ID\tStart\tEnd\tSubject".to_string(),
            "0\t2024-12-15 10:00:00\t2024-12-15 11:00:00\tlater".to_string(),
            "1\t2024-12-08 09:00:00\t2024-12-08 10:30:00\tearlier".to_string(),
        ]
    );
}
