//! Packet timestamps and their text.

use netsentry::capture::PacketTimestamp;
use netsentry::capture::timestamp::MICROS_PER_SECOND;

#[test]
fn formats_a_known_instant_in_utc() {
    // 2026-09-21T15:42:31Z == 1790005351
    let ts = PacketTimestamp::from_parts(1_790_005_351, 381_204);
    assert_eq!(ts.format_time_of_day(), "15:42:31.381204");
    assert_eq!(ts.format_datetime(), "2026-09-21 15:42:31.381204 UTC");
}

#[test]
fn microsecond_precision_is_preserved_and_zero_padded() {
    let ts = PacketTimestamp::from_parts(0, 7);
    assert_eq!(ts.format_time_of_day(), "00:00:00.000007");

    let ts = PacketTimestamp::from_parts(0, 999_999);
    assert_eq!(ts.format_time_of_day(), "00:00:00.999999");

    let ts = PacketTimestamp::from_parts(0, 0);
    assert_eq!(ts.format_datetime(), "1970-01-01 00:00:00.000000 UTC");
}

#[test]
fn timestamps_before_the_epoch_still_convert() {
    let ts = PacketTimestamp::from_parts(-1, 500_000);
    assert_eq!(ts.format_time_of_day(), "23:59:59.500000");
}

#[test]
fn out_of_range_microseconds_fall_back_to_raw_values() {
    for micros in [-1, MICROS_PER_SECOND, 5_000_000] {
        let ts = PacketTimestamp::from_parts(1_790_005_351, micros);
        let rendered = ts.format_time_of_day();
        assert_eq!(rendered, format!("[raw 1790005351.{micros}]"));
    }
}

#[test]
fn absurd_seconds_fall_back_instead_of_panicking() {
    for seconds in [i64::MIN, i64::MAX, -1_000_000_000_000_000] {
        let ts = PacketTimestamp::from_parts(seconds, 1);
        // The only requirement is that this returns rather than panics.
        let rendered = ts.format_datetime();
        assert!(rendered.contains("raw"), "unexpected output: {rendered}");
    }
}

#[test]
fn raw_values_are_never_lost() {
    let ts = PacketTimestamp::from_parts(42, 7);
    assert_eq!(ts.seconds(), 42);
    assert_eq!(ts.microseconds(), 7);
}
