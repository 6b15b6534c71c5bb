use chrono::{DateTime, NaiveDateTime};
use hmi_server::timestamp::openfmb_ts_to_timestamp;

fn at(secs: i64, nanos: u32) -> NaiveDateTime {
    DateTime::from_timestamp(secs, nanos).unwrap().naive_utc()
}

#[test]
fn timestamps_keep_their_nanoseconds() {
    assert_eq!(openfmb_ts_to_timestamp(1431648000, 500), Some(at(1431648000, 500)));
    assert_eq!(
        openfmb_ts_to_timestamp(1431648000, 0).unwrap().to_string(),
        "2015-05-15 00:00:00"
    );
}

#[test]
fn invalid_nanoseconds_fall_back_to_the_whole_second() {
    assert_eq!(openfmb_ts_to_timestamp(1431648000, 3_000_000_000), Some(at(1431648000, 0)));
}

#[test]
fn seconds_out_of_range_give_nothing() {
    assert_eq!(openfmb_ts_to_timestamp(1u64 << 62, 0), None);
    assert_eq!(openfmb_ts_to_timestamp(u64::MAX, 0), Some(at(-1, 0)));
}
