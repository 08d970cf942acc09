use backtester::data_loader::{
    convert_trade_time_to_elapsed_micros, hours_to_micros, mins_to_micros,
};

#[test]
fn market_open_is_nine_hours() {
    assert_eq!(convert_trade_time_to_elapsed_micros(90_000_000_000), 32_400_000_000);
}

#[test]
fn converts_hours_minutes_and_seconds() {
    // 09:30:15.123456
    assert_eq!(convert_trade_time_to_elapsed_micros(93_015_123_456), 34_215_123_456);
}

#[test]
fn hours_and_minutes_are_scaled() {
    assert_eq!(hours_to_micros(153_000_000_000), 54_000_000_000);
    assert_eq!(mins_to_micros(153_000_000_000), 1_800_000_000);
    assert_eq!(hours_to_micros(1_234_567), 0);
    assert_eq!(mins_to_micros(1_234_567), 0);
}

#[test]
fn only_two_hour_digits_count() {
    assert_eq!(convert_trade_time_to_elapsed_micros(1_000_000_000_000), 0);
}

#[test]
fn negative_times_are_floored() {
    assert_eq!(convert_trade_time_to_elapsed_micros(-1), 362_439_999_999);
    assert_eq!(
        convert_trade_time_to_elapsed_micros(-123_456_789_012_345),
        196_330_987_655
    );
}

#[test]
fn extreme_times_do_not_overflow() {
    assert!(convert_trade_time_to_elapsed_micros(i64::MIN) >= 0);
    assert!(convert_trade_time_to_elapsed_micros(i64::MAX) >= 0);
}

#[test]
fn conversion_keeps_clock_order() {
    let times = [
        90_000_000_000i64,
        90_059_999_999,
        90_100_000_000,
        95_959_999_999,
        100_000_000_000,
        153_000_000_000,
    ];
    for w in times.windows(2) {
        assert!(
            convert_trade_time_to_elapsed_micros(w[0]) <= convert_trade_time_to_elapsed_micros(w[1])
        );
    }
}
