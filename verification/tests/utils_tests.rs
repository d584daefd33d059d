use im_client::text::{push_pad2, push_signed_decimal, to_decimal};
use im_client::utils::format_milliseconds;

#[test]
fn formats_minutes_and_seconds() {
    assert_eq!(format_milliseconds(65_000), "时间: 01:05");
}

#[test]
fn formats_zero() {
    assert_eq!(format_milliseconds(0), "时间: 00:00");
}

#[test]
fn formats_hours_when_an_hour_has_passed() {
    assert_eq!(format_milliseconds(3_725_000), "时间: 01:02:05");
    assert_eq!(format_milliseconds(3_600_000), "时间: 01:00:00");
}

#[test]
fn keeps_wide_fields_unpadded() {
    assert_eq!(format_milliseconds(360_000_000), "时间: 100:00:00");
}

#[test]
fn drops_partial_seconds() {
    assert_eq!(format_milliseconds(59_999), "时间: 00:59");
    assert_eq!(format_milliseconds(999), "时间: 00:00");
}

#[test]
fn negative_spans_keep_their_sign_per_field() {
    assert_eq!(format_milliseconds(-65_000), "时间: -1:-5");
    assert_eq!(format_milliseconds(-3_725_000), "时间: -2:-5");
    assert_eq!(format_milliseconds(-999), "时间: 00:00");
}

#[test]
fn extreme_span_is_accepted() {
    assert_eq!(format_milliseconds(i64::MAX), format!(
        "时间: {:02}:{:02}:{:02}",
        (i64::MAX / 1000) / 3600,
        ((i64::MAX / 1000) % 3600) / 60,
        (i64::MAX / 1000) % 60
    ));
    let secs = -i64::MAX / 1000;
    assert_eq!(format_milliseconds(-i64::MAX), format!("时间: {:02}:{:02}", (secs % 3600) / 60, secs % 60));
}

#[test]
fn clock_fields_recompose_on_values() {
    for millis in [0i64, 1_000, 59_000, 60_000, 3_599_000, 3_600_000, 86_399_000, 123_456_789] {
        let secs = millis / 1000;
        let (h, m, s) = (secs / 3600, (secs % 3600) / 60, secs % 60);
        assert_eq!(3600 * h + 60 * m + s, secs);
        assert!(m < 60 && s < 60);
        let expected = if h > 0 {
            format!("时间: {:02}:{:02}:{:02}", h, m, s)
        } else {
            format!("时间: {:02}:{:02}", m, s)
        };
        assert_eq!(format_milliseconds(millis), expected);
    }
}

#[test]
fn decimal_rendering() {
    assert_eq!(to_decimal(0), "0");
    assert_eq!(to_decimal(7), "7");
    assert_eq!(to_decimal(10), "10");
    assert_eq!(to_decimal(u64::MAX), u64::MAX.to_string());
}

#[test]
fn signed_rendering_covers_the_whole_range() {
    let mut s = String::new();
    push_signed_decimal(&mut s, i64::MIN);
    assert_eq!(s, i64::MIN.to_string());
    for v in [i64::MIN, -10, -9, -1, 0, 5, 9, 10, 99, 100, i64::MAX] {
        let mut s = String::from("x");
        push_pad2(&mut s, v);
        assert_eq!(s, format!("x{:02}", v));
    }
}
