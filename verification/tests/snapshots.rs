use clomonitor_core::snapshots::{get_snapshots_to_delete, get_snapshots_to_keep, needs_new_snapshot, Day};

fn day(year: i32, month: u8, day: u8) -> Day {
    let month = time::Month::try_from(month).unwrap();
    let date = time::Date::from_calendar_date(year, month, day).unwrap();
    Day::from_julian(date.to_julian_day()).unwrap()
}

#[test]
fn get_snapshots_to_keep_1() {
    assert_eq!(
        get_snapshots_to_keep(
            day(2022, 10, 28),
            &[
                day(2022, 10, 28),
                day(2022, 10, 27),
                day(2022, 10, 26),
            ]
        ),
        vec![
            day(2022, 10, 28),
            day(2022, 10, 27),
            day(2022, 10, 26),
        ]
    );
}

#[test]
fn get_snapshots_to_keep_2() {
    assert_eq!(
        get_snapshots_to_keep(
            day(2022, 10, 28),
            &[
                day(2022, 10, 28),
                day(2022, 10, 25),
                day(2022, 10, 24),
            ]
        ),
        vec![day(2022, 10, 28)]
    );
}

#[test]
fn get_snapshots_to_keep_3() {
    assert_eq!(
        get_snapshots_to_keep(
            day(2022, 10, 24),
            &[
                day(2022, 10, 24),
                day(2022, 10, 20),
                day(2022, 10, 19),
            ]
        ),
        vec![day(2022, 10, 24), day(2022, 10, 20),]
    );
}

#[test]
fn get_snapshots_to_keep_4() {
    assert_eq!(
        get_snapshots_to_keep(
            day(2022, 10, 25),
            &[
                day(2022, 10, 25),
                day(2022, 10, 24),
                day(2022, 10, 20),
                day(2022, 10, 19),
                day(2022, 10, 13),
                day(2022, 10, 10),
            ]
        ),
        vec![
            day(2022, 10, 25),
            day(2022, 10, 24),
            day(2022, 10, 20),
            day(2022, 10, 13),
        ]
    );
}

#[test]
fn get_snapshots_to_keep_5() {
    assert_eq!(
        get_snapshots_to_keep(
            day(2022, 10, 25),
            &[
                day(2022, 10, 25),
                day(2022, 10, 13),
                day(2022, 10, 10),
            ]
        ),
        vec![day(2022, 10, 25), day(2022, 10, 13),]
    );
}

#[test]
fn get_snapshots_to_keep_6() {
    assert_eq!(
        get_snapshots_to_keep(
            day(2022, 10, 25),
            &[
                day(2022, 10, 18),
                day(2022, 10, 17),
                day(2022, 9, 29),
                day(2022, 9, 11),
                day(2022, 8, 1),
            ]
        ),
        vec![
            day(2022, 10, 18),
            day(2022, 9, 29),
            day(2022, 8, 1),
        ]
    );
}

#[test]
fn get_snapshots_to_keep_7() {
    assert_eq!(
        get_snapshots_to_keep(
            day(2022, 10, 25),
            &[
                day(2022, 10, 18),
                day(2021, 10, 17),
                day(2021, 9, 29),
                day(2020, 9, 11),
                day(2020, 8, 1),
            ]
        ),
        vec![
            day(2022, 10, 18),
            day(2021, 10, 17),
            day(2021, 9, 29),
            day(2020, 9, 11),
        ]
    );
}

#[test]
fn get_snapshots_to_keep_8() {
    assert_eq!(
        get_snapshots_to_keep(
            day(2022, 10, 25),
            &[
                day(2022, 10, 25),
                day(2022, 10, 24),
                day(2022, 10, 20),
                day(2022, 10, 19),
                day(2022, 10, 13),
                day(2022, 10, 10),
                day(2022, 7, 1),
                day(2022, 6, 2),
                day(2022, 6, 1),
                day(2021, 12, 9),
                day(2021, 9, 29),
                day(2020, 9, 11),
                day(2020, 8, 23),
            ]
        ),
        vec![
            day(2022, 10, 25),
            day(2022, 10, 24),
            day(2022, 10, 20),
            day(2022, 10, 13),
            day(2022, 7, 1),
            day(2022, 6, 2),
            day(2021, 12, 9),
            day(2021, 9, 29),
            day(2020, 9, 11),
        ]
    );
}

#[test]
fn snapshots_kept_and_deleted_partition_the_list() {
    let today = day(2022, 10, 25);
    let all = [
        day(2022, 10, 25),
        day(2022, 10, 24),
        day(2022, 10, 20),
        day(2022, 10, 19),
        day(2022, 10, 13),
        day(2022, 10, 10),
        day(2022, 7, 1),
        day(2022, 6, 2),
        day(2022, 6, 1),
        day(2021, 12, 9),
        day(2021, 9, 29),
        day(2020, 9, 11),
        day(2020, 8, 23),
    ];
    let keep = get_snapshots_to_keep(today, &all);
    let delete = get_snapshots_to_delete(today, &all);
    assert_eq!(keep.len() + delete.len(), all.len());
    for s in all.iter() {
        assert!(keep.contains(s) != delete.contains(s));
    }
    assert_eq!(
        delete,
        vec![day(2022, 10, 19), day(2022, 10, 10), day(2022, 6, 1), day(2020, 8, 23)]
    );
}

#[test]
fn snapshots_keep_is_idempotent() {
    let today = day(2022, 10, 25);
    let all = [
        day(2022, 10, 25),
        day(2022, 10, 20),
        day(2022, 10, 19),
        day(2022, 7, 1),
        day(2022, 6, 2),
        day(2020, 8, 23),
    ];
    let keep = get_snapshots_to_keep(today, &all);
    assert_eq!(get_snapshots_to_keep(today, &keep), keep);
}

#[test]
fn new_snapshot_needed_when_latest_is_older() {
    assert!(needs_new_snapshot(day(2022, 10, 25), &[]));
    assert!(needs_new_snapshot(day(2022, 10, 25), &[day(2022, 10, 24)]));
    assert!(!needs_new_snapshot(day(2022, 10, 25), &[day(2022, 10, 25)]));
}

#[test]
fn snapshots_keep_latest_of_each_week_across_year_boundary() {
    // 2023-01-01 and 2022-12-27 share ISO week 52 of 2022; 2023-01-03 is in
    // week 1 of 2023.
    assert_eq!(
        get_snapshots_to_keep(
            day(2023, 1, 10),
            &[day(2023, 1, 3), day(2023, 1, 1), day(2022, 12, 27)]
        ),
        vec![day(2023, 1, 3), day(2023, 1, 1), day(2022, 12, 27)]
    );
}

#[test]
fn snapshots_keep_latest_of_each_month_across_year_boundary() {
    // A March 2023 snapshot does not shut out the one of April 2022.
    assert_eq!(
        get_snapshots_to_keep(
            day(2023, 6, 1),
            &[day(2023, 3, 15), day(2022, 4, 15), day(2022, 4, 1)]
        ),
        vec![day(2023, 3, 15), day(2022, 4, 15)]
    );
}
