use iplan::date_row::DateRow;
use iplan::datetime::days_in_month;
use iplan::datetime::format_date;
use iplan::datetime::format_time;
use iplan::datetime::is_leap_year;
use iplan::datetime::month_name;
use iplan::datetime::DateTime;

fn dt(year: i32, month: u8, day: u8, hour: u8, minute: u8, second: u8) -> DateTime {
    DateTime { year, month, day, hour, minute, second }
}

#[test]
fn subtitle_is_today_for_any_time_of_day() {
    let today = dt(2024, 3, 4, 10, 30, 0);
    for (h, m, s) in [(0, 0, 0), (9, 15, 59), (23, 59, 59)] {
        let t = dt(2024, 3, 4, h, m, s);
        let mut row = DateRow::new(&today);
        row.set_datetime(&t, &today);
        assert_eq!(row.subtitle(), "Today");
    }
}

#[test]
fn subtitle_is_formatted_date_for_other_days() {
    let today = dt(2024, 3, 5, 8, 0, 0);
    let t = dt(2024, 3, 4, 8, 0, 0);
    let mut row = DateRow::new(&today);
    row.set_datetime(&t, &today);
    assert_eq!(row.subtitle(), "March 4, 2024");
}

#[test]
fn calculate_datetime_is_selected_day_at_midnight() {
    let today = dt(2024, 3, 4, 10, 30, 0);
    let t = dt(2025, 7, 31, 15, 45, 12);
    let mut row = DateRow::new(&today);
    row.set_datetime(&t, &today);
    let back = row.calculate_datetime();
    assert_eq!(back, dt(2025, 7, 31, 0, 0, 0));
}

#[test]
fn clearing_emits_sentinel_and_hides_affordance() {
    let today = dt(2024, 3, 4, 10, 30, 0);
    let mut row = DateRow::new(&today);
    row.set_clear_option(true);
    row.set_datetime(&dt(2024, 6, 1, 0, 0, 0), &today);
    assert!(row.clear_visible());
    let event = row.handle_clear_clicked();
    assert_eq!(event, DateTime::cleared());
    assert!(event.is_cleared());
    assert_eq!(event, dt(1970, 1, 1, 0, 0, 0));
    assert!(!row.clear_visible());
    assert_eq!(row.subtitle(), "");
}

#[test]
fn clear_affordance_never_shown_without_clear_option() {
    let today = dt(2024, 3, 4, 10, 30, 0);
    let mut row = DateRow::new(&today);
    assert!(!row.clear_visible());
    row.set_datetime(&dt(2024, 6, 1, 12, 0, 0), &today);
    assert!(!row.clear_visible());
    row.handle_day_selected(2024, 11, 25, &today);
    assert!(!row.clear_visible());
    row.handle_clear_clicked();
    assert!(!row.clear_visible());
}

#[test]
fn day_selection_emits_midnight_timestamp_and_refreshes() {
    let today = dt(2024, 3, 4, 10, 30, 0);
    let mut row = DateRow::new(&today);
    row.set_clear_option(true);
    // The calendar hands the month zero-based: 11 is December.
    let event = row.handle_day_selected(2023, 11, 25, &today);
    assert_eq!(event, dt(2023, 12, 25, 0, 0, 0));
    assert_eq!(row.subtitle(), "December 25, 2023");
    assert!(row.clear_visible());
    // Picking today's own day earns the "Today" subtitle.
    let event = row.handle_day_selected(2024, 2, 4, &today);
    assert_eq!(event, dt(2024, 3, 4, 0, 0, 0));
    assert_eq!(row.subtitle(), "Today");
}

#[test]
fn date_formatting_exact_values() {
    assert_eq!(format_date(&dt(2024, 3, 4, 0, 0, 0)), "March 4, 2024");
    assert_eq!(format_date(&dt(9999, 12, 31, 23, 59, 59)), "December 31, 9999");
    assert_eq!(format_date(&dt(1, 1, 1, 0, 0, 0)), "January 1, 1");
    assert_eq!(format_date(&dt(2024, 2, 29, 12, 0, 0)), "February 29, 2024");
    assert_eq!(format_date(&dt(1970, 10, 20, 0, 0, 0)), "October 20, 1970");
}

#[test]
fn time_formatting_exact_values() {
    assert_eq!(format_time(&dt(2024, 1, 1, 9, 0, 0)), "09:00");
    assert_eq!(format_time(&dt(2024, 1, 1, 0, 5, 0)), "00:05");
    assert_eq!(format_time(&dt(2024, 1, 1, 23, 59, 59)), "23:59");
    assert_eq!(format_time(&dt(2024, 1, 1, 10, 10, 0)), "10:10");
}

#[test]
fn month_names() {
    let names = [
        "January", "February", "March", "April", "May", "June", "July", "August", "September",
        "October", "November", "December",
    ];
    for m in 1..=12u8 {
        assert_eq!(month_name(m), names[(m - 1) as usize]);
    }
}

#[test]
fn calendar_validity() {
    assert!(dt(2024, 2, 29, 0, 0, 0).valid());
    assert!(!dt(2023, 2, 29, 0, 0, 0).valid());
    assert!(!dt(1900, 2, 29, 0, 0, 0).valid());
    assert!(dt(2000, 2, 29, 0, 0, 0).valid());
    assert!(!dt(2024, 4, 31, 0, 0, 0).valid());
    assert!(!dt(2024, 1, 1, 24, 0, 0).valid());
    assert!(!dt(0, 1, 1, 0, 0, 0).valid());
    assert!(!dt(10000, 1, 1, 0, 0, 0).valid());
    assert!(dt(9999, 12, 31, 23, 59, 59).valid());
}

#[test]
fn leap_years_and_month_lengths() {
    assert!(is_leap_year(2024));
    assert!(!is_leap_year(2023));
    assert!(!is_leap_year(1900));
    assert!(is_leap_year(2000));
    assert_eq!(days_in_month(2024, 2), 29);
    assert_eq!(days_in_month(2023, 2), 28);
    assert_eq!(days_in_month(2024, 4), 30);
    assert_eq!(days_in_month(2024, 12), 31);
}

#[test]
fn ymd_identity() {
    let t = dt(2024, 3, 4, 22, 11, 5);
    assert_eq!(t.ymd(), (2024, 3, 4));
    assert!(t.is_same_day(&dt(2024, 3, 4, 0, 0, 0)));
    assert!(!t.is_same_day(&dt(2024, 3, 5, 22, 11, 5)));
}
