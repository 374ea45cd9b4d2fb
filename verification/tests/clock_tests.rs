use rust_vector_logger::{format_timestamp, time_now, timestamp_of_reading, TIMESTAMP_FORMAT};

#[test]
fn epoch_renders_with_nanoseconds() {
    assert_eq!(
        format_timestamp(0, 0).unwrap(),
        "1970-01-01T00:00:00.000000000Z"
    );
}

#[test]
fn instant_renders_in_utc() {
    assert_eq!(
        format_timestamp(1_700_000_000, 123_456_789).unwrap(),
        "2023-11-14T22:13:20.123456789Z"
    );
}

#[test]
fn instant_before_epoch_renders() {
    assert_eq!(
        format_timestamp(-1, 500_000_000).unwrap(),
        "1969-12-31T23:59:59.500000000Z"
    );
}

#[test]
fn instant_out_of_range_has_no_text() {
    assert_eq!(format_timestamp(i64::MAX, 0), None);
    assert_eq!(format_timestamp(0, 2_000_000_000), None);
}

#[test]
fn pattern_is_the_record_pattern() {
    assert_eq!(TIMESTAMP_FORMAT, "%Y-%m-%dT%H:%M:%S.%fZ");
}

#[test]
fn present_time_has_the_record_shape() {
    let now = time_now().unwrap();
    let bytes = now.as_bytes();
    assert_eq!(bytes.len(), 30);
    assert_eq!(bytes[4], b'-');
    assert_eq!(bytes[7], b'-');
    assert_eq!(bytes[10], b'T');
    assert_eq!(bytes[13], b':');
    assert_eq!(bytes[16], b':');
    assert_eq!(bytes[19], b'.');
    assert_eq!(bytes[29], b'Z');
    assert!(now.as_str() >= "2020");
}

#[test]
fn readings_render_or_report_no_clock() {
    assert_eq!(timestamp_of_reading(None), None);
    assert_eq!(
        timestamp_of_reading(Some((0, 0))).unwrap(),
        "1970-01-01T00:00:00.000000000Z"
    );
    assert_eq!(
        timestamp_of_reading(Some((253_402_300_799, 999_999_999))).unwrap(),
        "9999-12-31T23:59:59.999999999Z"
    );
    assert_eq!(
        timestamp_of_reading(Some((253_402_300_800, 0))).unwrap(),
        "+10000-01-01T00:00:00.000000000Z"
    );
    assert_eq!(timestamp_of_reading(Some((u64::MAX, 0))), None);
}

#[test]
fn first_second_of_year_one_renders() {
    assert_eq!(
        format_timestamp(-62_135_596_800, 0).unwrap(),
        "0001-01-01T00:00:00.000000000Z"
    );
}
