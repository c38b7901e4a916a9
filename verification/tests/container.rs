use archive_pipeline::container::{unix_time, zip_timestamp, DosDateTime};

fn stamp(year: u16, month: u8, day: u8, hour: u8, minute: u8, second: u8) -> DosDateTime {
    DosDateTime { year, month, day, hour, minute, second }
}

#[test]
fn timestamp_of_the_epoch() {
    assert_eq!(zip_timestamp(0), stamp(1980, 1, 1, 0, 0, 0));
}

#[test]
fn timestamp_counts_months_of_31_days_and_years_of_365() {
    assert_eq!(zip_timestamp(1_700_000_000), stamp(2033, 11, 22, 22, 13, 20));
    assert_eq!(zip_timestamp(59), stamp(1980, 1, 1, 0, 0, 59));
    assert_eq!(zip_timestamp(86_400 * 30), stamp(1980, 1, 31, 0, 0, 0));
    assert_eq!(zip_timestamp(86_400 * 31), stamp(1980, 2, 1, 0, 0, 0));
    assert_eq!(zip_timestamp(31_536_000), stamp(1981, 12, 25, 0, 0, 0));
}

#[test]
fn timestamp_past_the_last_year_is_the_first_moment() {
    assert_eq!(zip_timestamp(4_036_607_999), stamp(2107, 8, 3, 23, 59, 59));
    assert_eq!(zip_timestamp(4_036_608_000), stamp(1980, 1, 1, 0, 0, 0));
    assert_eq!(zip_timestamp(u64::MAX), stamp(1980, 1, 1, 0, 0, 0));
    // A year that only wraps into the range of the format is still past it.
    assert_eq!(zip_timestamp(31_536_000 * 65_536), stamp(1980, 1, 1, 0, 0, 0));
}

#[test]
fn calendar_reading_of_a_timestamp() {
    assert_eq!(unix_time(stamp(1980, 1, 1, 0, 0, 0), 7), 315_532_800);
    assert_eq!(unix_time(stamp(2000, 2, 29, 12, 0, 0), 7), 951_825_600);
    assert_eq!(unix_time(stamp(2033, 11, 22, 22, 13, 20), 7), 2_016_310_400);
    assert_eq!(unix_time(stamp(2107, 12, 31, 23, 59, 59), 7), 4_354_819_199);
}

#[test]
fn unreadable_timestamp_falls_back_to_now() {
    assert_eq!(unix_time(stamp(1980, 0, 1, 0, 0, 0), 7), 7);
    assert_eq!(unix_time(stamp(1980, 13, 1, 0, 0, 0), 7), 7);
    assert_eq!(unix_time(stamp(1980, 1, 0, 0, 0, 0), 7), 7);
    assert_eq!(unix_time(stamp(2001, 2, 29, 0, 0, 0), 7), 7);
    assert_eq!(unix_time(stamp(2100, 2, 29, 0, 0, 0), 7), 7);
    assert_eq!(unix_time(stamp(1980, 4, 31, 0, 0, 0), 7), 7);
    assert_eq!(unix_time(stamp(1980, 1, 1, 24, 0, 0), 7), 7);
    assert_eq!(unix_time(stamp(1980, 1, 1, 0, 60, 0), 7), 7);
    assert_eq!(unix_time(stamp(1980, 1, 1, 0, 0, 60), 7), 7);
    assert_eq!(unix_time(stamp(1979, 12, 31, 0, 0, 0), 7), 7);
    assert_eq!(unix_time(stamp(2108, 1, 1, 0, 0, 0), 7), 7);
}
