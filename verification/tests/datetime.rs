//! Timestamps built from calendar date-times: the calendar arithmetic is
//! chrono's, the wire value is the library's.

use chrono::DateTime;
use chrono::NaiveDate;
use chrono::Utc;
use wire_time::Timestamp;

fn utc_2014_07_08_091011_nano12() -> DateTime<Utc> {
    NaiveDate::from_ymd_opt(2014, 7, 8)
        .unwrap()
        .and_hms_nano_opt(9, 10, 11, 12)
        .unwrap()
        .and_utc()
}

#[test]
fn test_datetime_to_wkt_timestamp() {
    let date_utc = utc_2014_07_08_091011_nano12();
    let ts0 = Timestamp::from_epoch_parts(date_utc.timestamp(), date_utc.timestamp_subsec_nanos());
    let expected0 = Timestamp { seconds: 1404810611, nanos: 12 };
    assert_eq!(ts0, expected0);

    let date_6 = DateTime::parse_from_rfc2822("8 Jul 2014 09:10:11 +0600").unwrap();
    let ts6 = Timestamp::from_epoch_parts(date_6.timestamp(), date_6.timestamp_subsec_nanos());
    let expected6 = Timestamp { seconds: 1404810611 - 6 * 3600, nanos: 0 };
    assert_eq!(ts6, expected6);
}

#[test]
fn test_wkt_timestamp_to_datetime() {
    let ts = Timestamp { seconds: 1404810611, nanos: 12 };
    let expected_date = utc_2014_07_08_091011_nano12();
    let date: DateTime<Utc> = DateTime::from_timestamp(ts.seconds, ts.nanos as u32).unwrap();
    assert_eq!(date, expected_date);
}

#[test]
fn epoch_parts_copy_field_for_field() {
    let ts = Timestamp::from_epoch_parts(-3, 1_999_999_999);
    assert_eq!(ts, Timestamp { seconds: -3, nanos: 1_999_999_999 });
}
