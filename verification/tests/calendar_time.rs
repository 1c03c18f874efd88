use gtfs_parser::calendar_time::{date_from_cell, time_from_cell, GtfsDate, GtfsTime};

fn cell(s: &str) -> Option<String> {
    Some(s.to_string())
}

#[test]
fn compact_date_is_read() {
    assert_eq!(
        date_from_cell(&cell("20240315")),
        Some(GtfsDate { year: 2024, month: 3, day: 15 })
    );
}

#[test]
fn leap_day_exists_only_in_leap_years() {
    assert_eq!(
        date_from_cell(&cell("20240229")),
        Some(GtfsDate { year: 2024, month: 2, day: 29 })
    );
    assert_eq!(date_from_cell(&cell("20230229")), None);
    assert_eq!(date_from_cell(&cell("19000229")), None);
    assert_eq!(
        date_from_cell(&cell("20000229")),
        Some(GtfsDate { year: 2000, month: 2, day: 29 })
    );
}

#[test]
fn impossible_months_and_days_are_refused() {
    assert_eq!(date_from_cell(&cell("20241301")), None);
    assert_eq!(date_from_cell(&cell("20240001")), None);
    assert_eq!(date_from_cell(&cell("20240431")), None);
    assert_eq!(date_from_cell(&cell("20240100")), None);
}

#[test]
fn other_date_texts_are_refused() {
    assert_eq!(date_from_cell(&cell("2024-03-15")), None);
    assert_eq!(date_from_cell(&cell("")), None);
    assert_eq!(date_from_cell(&cell("abcdefgh")), None);
    assert_eq!(date_from_cell(&cell("202403150")), None);
}

#[test]
fn empty_date_cell_reads_as_nothing() {
    assert_eq!(date_from_cell(&None), None);
}

#[test]
fn clock_time_is_read() {
    assert_eq!(
        time_from_cell(&cell("08:05:09")),
        Some(GtfsTime { hour: 8, minute: 5, second: 9, nanosecond: 0 })
    );
    assert_eq!(
        time_from_cell(&cell("23:59:59")),
        Some(GtfsTime { hour: 23, minute: 59, second: 59, nanosecond: 0 })
    );
}

#[test]
fn second_sixty_is_a_leap_second() {
    assert_eq!(
        time_from_cell(&cell("12:30:60")),
        Some(GtfsTime { hour: 12, minute: 30, second: 59, nanosecond: 1_000_000_000 })
    );
}

#[test]
fn times_past_midnight_are_refused() {
    assert_eq!(time_from_cell(&cell("24:00:00")), None);
    assert_eq!(time_from_cell(&cell("25:10:00")), None);
    assert_eq!(time_from_cell(&cell("10:60:00")), None);
    assert_eq!(time_from_cell(&cell("10:00:61")), None);
}

#[test]
fn empty_time_cell_reads_as_nothing() {
    assert_eq!(time_from_cell(&None), None);
    assert_eq!(time_from_cell(&cell("noon")), None);
}

#[test]
fn dashed_dates_are_refused() {
    assert_eq!(date_from_cell(&cell("2024-01-01")), None);
    assert_eq!(date_from_cell(&cell("2024/01/01")), None);
    assert_eq!(date_from_cell(&cell("2024.01.01")), None);
}

#[test]
fn one_digit_hours_are_read() {
    assert_eq!(
        time_from_cell(&cell("8:15:00")),
        Some(GtfsTime { hour: 8, minute: 15, second: 0, nanosecond: 0 })
    );
    assert_eq!(
        time_from_cell(&cell("0:00:60")),
        Some(GtfsTime { hour: 0, minute: 0, second: 59, nanosecond: 1_000_000_000 })
    );
    assert_eq!(time_from_cell(&cell("9:60:00")), None);
}
