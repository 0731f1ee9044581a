use market_data::layout::{BOOK_FILE_LEN, BOOK_WORDS, TOP_FILE_LEN};
use market_data::{
    is_expired, link_start, link_step, retention_cutoff, LinkAction, LinkEvent, LinkState, OrderBook,
    TopOfBook, RECONNECT_DELAY_MS,
};

#[test]
fn reconnect_waits_for_delay() {
    let (s, a) = link_start();
    assert_eq!(a, LinkAction::Connect);
    let (s, a) = link_step(s, LinkEvent::ConnectOk, true);
    assert_eq!(s, LinkState::Connected);
    assert_eq!(a, LinkAction::Subscribe);
    let (s, a) = link_step(s, LinkEvent::Closed { now_ms: 1000 }, true);
    assert_eq!(s, LinkState::Disconnected { since_ms: 1000 });
    assert_eq!(a, LinkAction::Wait { until_ms: 1000 + RECONNECT_DELAY_MS });
    let (s, a) = link_step(s, LinkEvent::Tick { now_ms: 5999 }, true);
    assert_eq!(a, LinkAction::Wait { until_ms: 6000 });
    let (s, a) = link_step(s, LinkEvent::Tick { now_ms: 6000 }, true);
    assert_eq!(s, LinkState::Connecting);
    assert_eq!(a, LinkAction::Connect);
}

#[test]
fn failed_attempt_waits_and_top_feed_reads() {
    let (s, _) = link_start();
    let (s, a) = link_step(s, LinkEvent::ConnectFailed { now_ms: 10 }, false);
    assert_eq!(a, LinkAction::Wait { until_ms: 5010 });
    let (s, a) = link_step(s, LinkEvent::ConnectOk, false);
    assert_eq!(a, LinkAction::Idle);
    let (s, _) = link_step(s, LinkEvent::Tick { now_ms: 5010 }, false);
    let (_, a) = link_step(s, LinkEvent::ConnectOk, false);
    assert_eq!(a, LinkAction::Read);
}

#[test]
fn reconnect_keeps_store_contents() {
    let mut b = OrderBook::new();
    b.apply_depth_text(r#"{"bids":[["1","1"]],"timestampms":3}"#);
    let before = b.to_words();
    let (s, _) = link_step(LinkState::Connected, LinkEvent::Closed { now_ms: 0 }, true);
    let (s, _) = link_step(s, LinkEvent::Tick { now_ms: RECONNECT_DELAY_MS }, true);
    let (_, a) = link_step(s, LinkEvent::ConnectOk, true);
    assert_eq!(a, LinkAction::Subscribe);
    assert_eq!(b.to_words(), before);
    b.apply_depth_text(r#"{"asks":[["2","1"]]}"#);
    assert_eq!(b.bids[0].price, 1_000_000);
}

#[test]
fn retention_drops_week_old_rows() {
    let day: i64 = 86_400_000;
    let now: i64 = 1_700_000_000_000;
    assert!(is_expired(now - 8 * day, now));
    assert!(!is_expired(now - day, now));
    assert_eq!(retention_cutoff(now), now - 7 * day);
    assert_eq!(retention_cutoff(i64::MIN + 5), i64::MIN);
}

#[test]
fn book_image_round_trip() {
    let mut b = OrderBook::new();
    b.update_bid(0, 11, 12);
    b.update_ask(49, 21, 22);
    b.set_ts(33);
    let w = b.to_words();
    assert_eq!(w.len(), BOOK_WORDS);
    assert_eq!(BOOK_FILE_LEN, 50 * 16 * 2 + 8);
    assert_eq!(w[0], 11);
    assert_eq!(w[1], 12);
    assert_eq!(w[198], 21);
    assert_eq!(w[199], 22);
    assert_eq!(w[200], 33);
    let back = OrderBook::from_words(&w);
    assert_eq!(back.to_words(), w);
}

#[test]
fn top_image_round_trip() {
    let mut t = TopOfBook::new();
    t.set_bid(1, 2);
    t.set_ask(3, 4);
    t.set_ts(5);
    let w = t.to_words();
    assert_eq!(w, vec![1, 2, 3, 4, 5]);
    assert_eq!(TOP_FILE_LEN, 40);
    assert_eq!(TopOfBook::from_words(&w), t);
}

#[test]
fn level_accessors() {
    let mut l = market_data::OrderLevel::new();
    l.store_price(7);
    l.store_qty(8);
    assert_eq!(l.load_price(), 7);
    assert_eq!(l.load_qty(), 8);
    assert_eq!(market_data::OrderLevel::default(), market_data::OrderLevel::new());
}
