use backtester::logger::Side;
use backtester::strategy::{Strategy, StrategyConfig};

fn config() -> StrategyConfig {
    StrategyConfig {
        name: "A".to_owned(),
        buy_begin: 100,
        buy_every: 10,
        sell_begin: 150,
        sell_every: 20,
    }
}

fn cands() -> Vec<(String, i64)> {
    vec![("AAA".to_owned(), 1), ("BBB".to_owned(), 2), ("CCC".to_owned(), 3)]
}

#[test]
fn no_buy_before_begin() {
    let mut s = Strategy::new(config());
    assert!(s.buy_signal_with_draw(50, "0", true, &cands(), 0).is_none());
    assert!(s.buy_signal_with_draw(99, "0", true, &cands(), 0).is_none());
}

#[test]
fn buys_the_drawn_candidate() {
    let mut s = Strategy::new(config());
    let o = s.buy_signal_with_draw(100, "7", true, &cands(), 4).unwrap();
    assert_eq!(o.side, Side::Buy);
    assert_eq!(o.trader_name, "7");
    assert_eq!(o.strategy_name, "A");
    assert_eq!(o.time, 100);
    assert_eq!(o.code, "BBB");
    assert_eq!(o.quantity, 2);
}

#[test]
fn one_buy_per_period() {
    let mut s = Strategy::new(config());
    assert!(s.buy_signal_with_draw(100, "0", true, &cands(), 0).is_some());
    assert!(s.buy_signal_with_draw(103, "0", true, &cands(), 0).is_none());
    assert!(s.buy_signal_with_draw(109, "0", true, &cands(), 0).is_none());
    // 110 starts a new period
    let o = s.buy_signal_with_draw(110, "0", true, &cands(), 2).unwrap();
    assert_eq!(o.code, "CCC");
    assert!(s.buy_signal_with_draw(115, "0", true, &cands(), 0).is_none());
    // a period with no tick at its start still re-arms on its first tick
    assert!(s.buy_signal_with_draw(123, "0", true, &cands(), 0).is_some());
}

#[test]
fn refused_buys_keep_the_period_open() {
    let mut s = Strategy::new(config());
    assert!(s.buy_signal_with_draw(100, "0", false, &cands(), 0).is_none());
    assert!(s.buy_signal_with_draw(101, "0", true, &Vec::new(), 0).is_none());
    assert!(s.buy_signal_with_draw(102, "0", true, &cands(), 0).is_some());
}

#[test]
fn random_buy_picks_a_candidate() {
    let mut s = Strategy::new(config());
    let o = s.buy_signal(100, "0", true, &cands()).unwrap();
    assert!(cands().iter().any(|(c, q)| *c == o.code && *q == o.quantity));
    assert!(s.buy_signal(101, "0", true, &cands()).is_none());
}

#[test]
fn sells_the_first_holding() {
    let mut s = Strategy::new(config());
    let held = vec![("XYZ".to_owned(), 7), ("QQQ".to_owned(), 9)];
    assert!(s.sell_signal(149, "1", &held).is_none());
    let o = s.sell_signal(150, "1", &held).unwrap();
    assert_eq!(o.side, Side::Sell);
    assert_eq!(o.code, "XYZ");
    assert_eq!(o.quantity, 7);
    assert_eq!(o.time, 150);
    assert!(s.sell_signal(169, "1", &held).is_none());
    assert!(s.sell_signal(170, "1", &held).is_some());
}

#[test]
fn nothing_held_nothing_sold() {
    let mut s = Strategy::new(config());
    assert!(s.sell_signal(150, "1", &Vec::new()).is_none());
    let held = vec![("XYZ".to_owned(), 7)];
    assert!(s.sell_signal(151, "1", &held).is_some());
}

#[test]
fn buy_and_sell_schedules_are_independent() {
    let mut s = Strategy::new(config());
    let held = vec![("XYZ".to_owned(), 7)];
    assert!(s.buy_signal_with_draw(150, "0", true, &cands(), 0).is_some());
    assert!(s.sell_signal(150, "0", &held).is_some());
    assert!(s.buy_signal_with_draw(155, "0", true, &cands(), 0).is_none());
    assert!(s.sell_signal(155, "0", &held).is_none());
    assert!(s.buy_signal_with_draw(161, "0", true, &cands(), 0).is_some());
    assert!(s.sell_signal(161, "0", &held).is_none());
    assert!(s.sell_signal(171, "0", &held).is_some());
}

#[test]
fn a_period_is_only_seen_by_a_falling_phase() {
    // Ticks that all land on a period start keep the phase at 0, which never
    // drops below the previous phase: the strategy buys only once.
    let mut s = Strategy::new(config());
    assert!(s.buy_signal_with_draw(100, "0", true, &cands(), 0).is_some());
    assert!(s.buy_signal_with_draw(110, "0", true, &cands(), 0).is_none());
    assert!(s.buy_signal_with_draw(120, "0", true, &cands(), 0).is_none());
}

#[test]
fn negative_period_uses_its_magnitude() {
    let mut s = Strategy::new(StrategyConfig {
        name: "N".to_owned(),
        buy_begin: 0,
        buy_every: -10,
        sell_begin: 0,
        sell_every: 1,
    });
    assert!(s.buy_signal_with_draw(5, "0", true, &cands(), 0).is_some());
    assert!(s.buy_signal_with_draw(9, "0", true, &cands(), 0).is_none());
    assert!(s.buy_signal_with_draw(10, "0", true, &cands(), 0).is_some());
}

#[test]
fn buy_windows_of_ten() {
    let mut s = Strategy::new(StrategyConfig {
        name: "A".to_owned(),
        buy_begin: 0,
        buy_every: 10,
        sell_begin: 0,
        sell_every: 10,
    });
    let one = vec![("X".to_owned(), 3)];
    let o = s.buy_signal(5, "t", true, &one).unwrap();
    assert_eq!((o.side, o.time, o.code.as_str(), o.quantity), (Side::Buy, 5, "X", 3));
    assert!(s.buy_signal(7, "t", true, &one).is_none());
    let o = s.buy_signal(12, "t", true, &one).unwrap();
    assert_eq!((o.time, o.code.as_str(), o.quantity), (12, "X", 3));
}

#[test]
fn sell_windows_of_three() {
    let mut s = Strategy::new(StrategyConfig {
        name: "A".to_owned(),
        buy_begin: 0,
        buy_every: 1,
        sell_begin: 10,
        sell_every: 3,
    });
    let held = vec![("X".to_owned(), 5)];
    assert!(s.sell_signal(9, "t", &held).is_none());
    let o = s.sell_signal(10, "t", &held).unwrap();
    assert_eq!((o.side, o.time, o.code.as_str(), o.quantity), (Side::Sell, 10, "X", 5));
    assert!(s.sell_signal(11, "t", &held).is_none());
    let o = s.sell_signal(13, "t", &held).unwrap();
    assert_eq!((o.time, o.code.as_str(), o.quantity), (13, "X", 5));
}
