use backtester::logger::{
    format_i64, format_u64, format_usize, log_time_nanos, nav_entity_path, order_entity_path,
    order_log_text, side_name, Side,
};

#[test]
fn side_names() {
    assert_eq!(side_name(Side::Buy), "Buy");
    assert_eq!(side_name(Side::Sell), "Sell");
    assert_eq!(side_name(Side::Buy), format!("{:?}", Side::Buy));
    assert_eq!(side_name(Side::Sell), format!("{:?}", Side::Sell));
}

#[test]
fn order_paths() {
    assert_eq!(order_entity_path(Side::Buy, "A", "0"), "order/Buy/strategy_A/0");
    assert_eq!(order_entity_path(Side::Sell, "dca", "12"), "order/Sell/strategy_dca/12");
}

#[test]
fn order_texts() {
    assert_eq!(order_log_text(Side::Buy, "005930", 120), "Buy 005930, q: 120");
    assert_eq!(order_log_text(Side::Sell, "000660", -12), "Sell 000660, q: -12");
    assert_eq!(order_log_text(Side::Sell, "X", 0), "Sell X, q: 0");
}

#[test]
fn nav_paths() {
    assert_eq!(nav_entity_path("A", "4"), "nav/strategy_A/4");
}

#[test]
fn decimal_texts() {
    for i in [0i64, 7, 10, 99, 100, 12345, -1, -10, i64::MAX, i64::MIN] {
        assert_eq!(format_i64(i), i.to_string());
    }
    for n in [0u64, 9, 10, 1000, u64::MAX] {
        assert_eq!(format_u64(n), n.to_string());
    }
    for n in [0usize, 5, 42, usize::MAX] {
        assert_eq!(format_usize(n), n.to_string());
    }
}

#[test]
fn log_time_is_nanoseconds() {
    assert_eq!(log_time_nanos(32_400_000_000), 32_400_000_000_000);
    assert_eq!(log_time_nanos(-3), -3_000);
}
