use chrono::{Datelike, Duration, Local, NaiveDate, TimeZone};
use new_user_report::date::{CalendarDate, DateRange};
use new_user_report::error::AssignmentError;
use new_user_report::helper::{
    block_times, filter_data_start_end_date, retain_in_range, strip_dates, DatedRecord,
    SignatureRecord,
};

fn day(year: i32, month: u32, day: u32) -> CalendarDate {
    CalendarDate { year, month, day }
}

fn record(signature: &str, block_time: Option<i64>) -> SignatureRecord {
    SignatureRecord { signature: signature.to_string(), block_time }
}

fn dated(signature: &str, date: CalendarDate) -> DatedRecord {
    DatedRecord { record: record(signature, Some(0)), date }
}

fn of_chrono(date: NaiveDate) -> CalendarDate {
    day(date.year(), date.month(), date.day())
}

fn local_day(time: i64) -> NaiveDate {
    Local.timestamp_opt(time, 0).unwrap().date_naive()
}

/// Gives each record the local day of its block time, as a caller does.
fn with_local_days(records: Vec<SignatureRecord>) -> Result<Vec<DatedRecord>, AssignmentError> {
    let times = block_times(&records)?;
    Ok(records
        .into_iter()
        .zip(times)
        .map(|(record, time)| DatedRecord { record, date: of_chrono(local_day(time)) })
        .collect())
}

fn names(records: &[DatedRecord]) -> Vec<String> {
    records.iter().map(|item| item.record.signature.clone()).collect()
}

fn signatures(records: &[SignatureRecord]) -> Vec<String> {
    records.iter().map(|item| item.signature.clone()).collect()
}

#[test]
fn records_on_the_first_and_last_day_are_kept() {
    let range = DateRange { start: day(2024, 2, 28), end: day(2024, 3, 1) };
    let list = vec![
        dated("before", day(2024, 2, 27)),
        dated("first", day(2024, 2, 28)),
        dated("inside", day(2024, 2, 29)),
        dated("last", day(2024, 3, 1)),
        dated("after", day(2024, 3, 2)),
    ];
    let kept = retain_in_range(list.clone(), &range);
    assert_eq!(names(&kept), vec!["first", "inside", "last"]);
    let kept = filter_data_start_end_date(list, range.start, range.end).unwrap();
    assert_eq!(signatures(&kept), vec!["first", "inside", "last"]);
}

#[test]
fn the_days_next_to_a_range_of_one_day_are_dropped() {
    let range = DateRange { start: day(2024, 1, 1), end: day(2024, 1, 1) };
    let list = vec![
        dated("eve", day(2023, 12, 31)),
        dated("new year", day(2024, 1, 1)),
        dated("second", day(2024, 1, 2)),
    ];
    let kept = retain_in_range(list.clone(), &range);
    assert_eq!(names(&kept), vec!["new year"]);
    let kept = filter_data_start_end_date(list, range.start, range.end).unwrap();
    assert_eq!(signatures(&kept), vec!["new year"]);
}

#[test]
fn kept_records_stay_in_their_order() {
    let range = DateRange { start: day(2024, 1, 1), end: day(2024, 12, 31) };
    let list = vec![
        dated("e", day(2024, 12, 31)),
        dated("x", day(2025, 1, 1)),
        dated("c", day(2024, 6, 1)),
        dated("a", day(2024, 1, 1)),
        dated("y", day(2023, 12, 31)),
        dated("c", day(2024, 6, 1)),
        dated("b", day(2024, 3, 3)),
    ];
    let kept = retain_in_range(list.clone(), &range);
    assert_eq!(names(&kept), vec!["e", "c", "a", "c", "b"]);
    let kept = filter_data_start_end_date(list, range.start, range.end).unwrap();
    assert_eq!(signatures(&kept), vec!["e", "c", "a", "c", "b"]);
}

#[test]
fn kept_records_are_handed_back_unchanged() {
    let range = DateRange { start: day(2024, 1, 1), end: day(2024, 12, 31) };
    let first = DatedRecord { record: record("one", Some(17)), date: day(2024, 5, 5) };
    let second = DatedRecord { record: record("two", None), date: day(2024, 5, 6) };
    let kept = retain_in_range(vec![first.clone(), second.clone()], &range);
    assert_eq!(kept, vec![first.clone(), second]);
    let kept = filter_data_start_end_date(vec![first], range.start, range.end);
    assert_eq!(kept, Ok(vec![record("one", Some(17))]));
}

#[test]
fn filtering_twice_changes_nothing() {
    let range = DateRange { start: day(2024, 2, 1), end: day(2024, 2, 29) };
    let list = vec![
        dated("a", day(2024, 1, 31)),
        dated("b", day(2024, 2, 1)),
        dated("c", day(2024, 2, 29)),
        dated("d", day(2024, 3, 1)),
        dated("e", day(2024, 2, 15)),
    ];
    let once = retain_in_range(list, &range);
    let twice = retain_in_range(once.clone(), &range);
    assert_eq!(names(&once), vec!["b", "c", "e"]);
    assert_eq!(twice, once);
    let records = filter_data_start_end_date(once.clone(), range.start, range.end).unwrap();
    let again = filter_data_start_end_date(twice, range.start, range.end).unwrap();
    assert_eq!(records, strip_dates(once));
    assert_eq!(again, records);
}

#[test]
fn a_range_the_wrong_way_round_keeps_nothing() {
    let range = DateRange { start: day(2024, 3, 2), end: day(2024, 3, 1) };
    let list = vec![
        dated("a", day(2024, 3, 1)),
        dated("b", day(2024, 3, 2)),
        dated("c", day(2024, 2, 1)),
    ];
    assert!(retain_in_range(list.clone(), &range).is_empty());
    assert_eq!(filter_data_start_end_date(list, range.start, range.end), Ok(Vec::new()));
}

#[test]
fn an_empty_list_stays_empty() {
    let range = DateRange { start: day(2024, 1, 1), end: day(2024, 12, 31) };
    assert!(retain_in_range(Vec::new(), &range).is_empty());
    assert_eq!(filter_data_start_end_date(Vec::new(), range.start, range.end), Ok(Vec::new()));
    assert_eq!(block_times(&Vec::new()), Ok(Vec::new()));
    assert!(strip_dates(Vec::new()).is_empty());
}

#[test]
fn stripping_gives_the_records_in_order() {
    let list = vec![dated("a", day(2024, 3, 1)), dated("b", day(2024, 3, 2))];
    assert_eq!(strip_dates(list), vec![record("a", Some(0)), record("b", Some(0))]);
}

#[test]
fn block_times_come_out_in_order() {
    let list = vec![
        record("a", Some(3)),
        record("b", Some(-1)),
        record("c", Some(i64::MAX)),
        record("d", Some(i64::MIN)),
        record("e", Some(3)),
    ];
    assert_eq!(block_times(&list), Ok(vec![3, -1, i64::MAX, i64::MIN, 3]));
}

#[test]
fn one_record_without_block_time_has_no_block_times() {
    for missing in 0..3usize {
        let mut list = vec![record("a", Some(1)), record("b", Some(2)), record("c", Some(3))];
        list[missing].block_time = None;
        assert_eq!(block_times(&list), Err(AssignmentError::BlockTimeMissing));
    }
    assert_eq!(block_times(&vec![record("a", None)]), Err(AssignmentError::BlockTimeMissing));
}

#[test]
fn one_record_without_block_time_fails_the_whole_list() {
    let range = DateRange { start: day(2024, 1, 1), end: day(2024, 12, 31) };
    let list = vec![
        DatedRecord { record: record("A", Some(1)), date: day(2024, 5, 5) },
        DatedRecord { record: record("B", None), date: day(2024, 5, 5) },
        DatedRecord { record: record("C", Some(3)), date: day(2024, 5, 5) },
    ];
    assert_eq!(
        filter_data_start_end_date(list, range.start, range.end),
        Err(AssignmentError::BlockTimeMissing)
    );
}

#[test]
fn a_record_without_block_time_fails_even_where_nothing_is_in_range() {
    let list = vec![DatedRecord { record: record("B", None), date: day(2024, 5, 5) }];
    assert_eq!(
        filter_data_start_end_date(list, day(2024, 3, 2), day(2024, 3, 1)),
        Err(AssignmentError::BlockTimeMissing)
    );
}

#[test]
fn a_record_is_kept_on_its_local_day_and_dropped_a_day_off() {
    let time: i64 = 1_700_000_000;
    let on = local_day(time);
    let before = of_chrono(on - Duration::days(1));
    let after = of_chrono(on + Duration::days(1));
    let on = of_chrono(on);
    let list = vec![record("A", Some(time))];
    let filter = |first: CalendarDate, last: CalendarDate| {
        filter_data_start_end_date(with_local_days(list.clone()).unwrap(), first, last)
    };
    assert_eq!(filter(on, on), Ok(list.clone()));
    assert_eq!(filter(before, on), Ok(list.clone()));
    assert_eq!(filter(on, after), Ok(list.clone()));
    assert_eq!(filter(after, after), Ok(Vec::new()));
    assert_eq!(filter(before, before), Ok(Vec::new()));
    assert_eq!(filter(after, before), Ok(Vec::new()));
}

#[test]
fn only_the_records_in_range_come_back_in_order() {
    let inside: i64 = 1_700_000_000;
    let outside: i64 = inside + 40 * 86_400;
    let on = of_chrono(local_day(inside));
    let list = vec![
        record("A", Some(inside)),
        record("B", Some(outside)),
        record("C", Some(inside)),
        record("D", Some(inside - 40 * 86_400)),
    ];
    assert_eq!(
        filter_data_start_end_date(with_local_days(list).unwrap(), on, on),
        Ok(vec![record("A", Some(inside)), record("C", Some(inside))])
    );
}

#[test]
fn a_missing_block_time_is_found_before_any_day_is_taken() {
    let list = vec![record("A", Some(i64::MAX)), record("B", None)];
    assert_eq!(with_local_days(list).err(), Some(AssignmentError::BlockTimeMissing));
}
