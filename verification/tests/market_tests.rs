use backtester::market::{wait_nanos, FeedAction, MarketFeed, MARKET_OPEN_MICROS};

#[test]
fn feed_starts_at_first_row() {
    assert_eq!(MarketFeed::new().index(), 0);
}

#[test]
fn no_row_stops() {
    assert!(matches!(MarketFeed::new().next_action(None), FeedAction::Stop));
}

#[test]
fn pre_open_row_holds() {
    let f = MarketFeed::new();
    assert!(matches!(f.next_action(Some(MARKET_OPEN_MICROS - 1)), FeedAction::Hold));
    assert!(matches!(f.next_action(Some(0)), FeedAction::Hold));
    assert_eq!(f.index(), 0);
}

#[test]
fn row_is_published_at_its_offset() {
    let mut f = MarketFeed::new();
    assert!(f.delivered(true));
    match f.next_action(Some(MARKET_OPEN_MICROS + 2_500)) {
        FeedAction::Publish { idx, time, due_micros } => {
            assert_eq!(idx, 1);
            assert_eq!(time, MARKET_OPEN_MICROS + 2_500);
            assert_eq!(due_micros, 2_500);
        }
        _ => panic!("expected a tick"),
    }
    match f.next_action(Some(MARKET_OPEN_MICROS)) {
        FeedAction::Publish { due_micros, .. } => assert_eq!(due_micros, 0),
        _ => panic!("expected a tick"),
    }
}

#[test]
fn delivery_moves_the_feed() {
    let mut f = MarketFeed::new();
    assert!(f.delivered(true));
    assert!(f.delivered(true));
    assert_eq!(f.index(), 2);
    assert!(!f.delivered(false));
    assert_eq!(f.index(), 2);
}

#[test]
fn waits_until_due() {
    assert_eq!(wait_nanos(5, 1_000), 4_000);
    assert_eq!(wait_nanos(5, 5_000), 0);
    assert_eq!(wait_nanos(5, 10_000), 0);
    assert_eq!(wait_nanos(u64::MAX, 0), (u64::MAX as u128) * 1_000);
}
