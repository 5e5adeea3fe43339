use filed::clock::{clock_string, full_date_string, time_text, CivilTime};

fn moment(year: i32, month: u32, day: u32, hour12: u32, minute: u32, pm: bool) -> CivilTime {
    CivilTime { year, month, day, hour12, minute, pm }
}

#[test]
fn clock_reading() {
    assert_eq!(clock_string(&moment(2024, 7, 8, 3, 5, true)), String::from("03:05 PM"));
    assert_eq!(clock_string(&moment(2024, 7, 8, 12, 0, false)), String::from("12:00 AM"));
}

#[test]
fn full_date_reading() {
    assert_eq!(
        full_date_string(&moment(2001, 7, 8, 9, 5, false)),
        String::from("07/08/2001 09:05 AM")
    );
    assert_eq!(
        full_date_string(&moment(985, 12, 31, 11, 59, true)),
        String::from("12/31/0985 11:59 PM")
    );
}

#[test]
fn recent_moments_count_seconds_and_minutes() {
    let t = moment(2024, 7, 8, 3, 5, true);
    let n = moment(2024, 7, 8, 3, 6, true);
    assert_eq!(time_text(30, &t, &n), String::from("30 seconds ago"));
    assert_eq!(time_text(59, &t, &n), String::from("59 seconds ago"));
    assert_eq!(time_text(60, &t, &n), String::from("1 minutes ago"));
    assert_eq!(time_text(3599, &t, &n), String::from("59 minutes ago"));
}

#[test]
fn moments_ahead_of_the_clock_still_count_seconds() {
    let t = moment(2024, 7, 8, 3, 5, true);
    let n = moment(2024, 7, 8, 3, 6, true);
    assert_eq!(time_text(-120, &t, &n), String::from("-120 seconds ago"));
}

#[test]
fn older_moments_fall_back_to_dates() {
    let t = moment(2024, 7, 8, 9, 5, false);
    // An hour or more ago, same calendar date.
    assert_eq!(
        time_text(3600, &t, &moment(2024, 7, 8, 11, 6, true)),
        String::from("Today at 09:05 AM")
    );
    // Now is the following calendar day.
    assert_eq!(
        time_text(86400, &t, &moment(2024, 7, 9, 11, 6, true)),
        String::from("Yesterday at 09:05 AM")
    );
    // Two days on: the full date.
    assert_eq!(
        time_text(2 * 86400, &t, &moment(2024, 7, 10, 11, 6, true)),
        String::from("07/08/2024 09:05 AM")
    );
}

#[test]
fn yesterday_crosses_month_and_year_boundaries() {
    assert_eq!(
        time_text(86400, &moment(2024, 6, 30, 1, 0, false), &moment(2024, 7, 1, 1, 0, false)),
        String::from("Yesterday at 01:00 AM")
    );
    assert_eq!(
        time_text(86400, &moment(2023, 12, 31, 1, 0, false), &moment(2024, 1, 1, 1, 0, false)),
        String::from("Yesterday at 01:00 AM")
    );
}

#[test]
fn yesterday_knows_leap_februaries() {
    // 2024 is a leap year: the day before the first of March is the
    // twenty-ninth.
    assert_eq!(
        time_text(86400, &moment(2024, 2, 29, 1, 0, false), &moment(2024, 3, 1, 1, 0, false)),
        String::from("Yesterday at 01:00 AM")
    );
    assert_eq!(
        time_text(86400, &moment(2024, 2, 28, 1, 0, false), &moment(2024, 3, 1, 1, 0, false)),
        String::from("02/28/2024 01:00 AM")
    );
    // 2023 is not: the day before is the twenty-eighth.
    assert_eq!(
        time_text(86400, &moment(2023, 2, 28, 1, 0, false), &moment(2023, 3, 1, 1, 0, false)),
        String::from("Yesterday at 01:00 AM")
    );
    // 1900 was no leap year, 2000 was.
    assert_eq!(
        time_text(86400, &moment(1900, 2, 28, 1, 0, false), &moment(1900, 3, 1, 1, 0, false)),
        String::from("Yesterday at 01:00 AM")
    );
    assert_eq!(
        time_text(86400, &moment(2000, 2, 29, 1, 0, false), &moment(2000, 3, 1, 1, 0, false)),
        String::from("Yesterday at 01:00 AM")
    );
}
