use market_data::{OrderBook, OrderLevel, BOOK_DEPTH};

fn lvl(price: u64, qty: u64) -> OrderLevel {
    OrderLevel { price, qty }
}

fn book_with_bids(prices: &[u64]) -> OrderBook {
    let mut b = OrderBook::new();
    for (i, p) in prices.iter().enumerate() {
        b.update_bid(i, *p, 1);
    }
    b
}

#[test]
fn snapshot_end_to_end() {
    let mut b = OrderBook::new();
    let ok = b.apply_depth_text(
        r#"{"bids":[["145.85","2.5"]], "asks":[["145.90","1.8"]], "timestampms": 1726311234567}"#,
    );
    assert!(ok);
    assert_eq!(b.bids[0], lvl(145_850_000, 2_500_000));
    assert_eq!(b.asks[0], lvl(145_900_000, 1_800_000));
    assert_eq!(b.timestamp_ms, 1726311234567);
    assert_eq!(b.bids[1], lvl(0, 0));
}

#[test]
fn snapshot_overwrites_by_position() {
    let mut b = book_with_bids(&[9, 8, 7, 6]);
    b.apply_depth_text(r#"{"bids":[["3","1"],["2","2"],["1","3"]]}"#);
    assert_eq!(b.bids[0], lvl(3_000_000, 1_000_000));
    assert_eq!(b.bids[1], lvl(2_000_000, 2_000_000));
    assert_eq!(b.bids[2], lvl(1_000_000, 3_000_000));
    assert_eq!(b.bids[3], lvl(6, 1));
    assert_eq!(b.timestamp_ms, 0);
}

#[test]
fn snapshot_caps_at_depth() {
    let mut entries = Vec::new();
    for i in 0..60 {
        entries.push(format!("[\"{}\",\"1\"]", i + 1));
    }
    let msg = format!("{{\"asks\":[{}]}}", entries.join(","));
    let mut b = OrderBook::new();
    assert!(b.apply_depth_text(&msg));
    assert_eq!(b.asks[0], lvl(1_000_000, 1_000_000));
    assert_eq!(b.asks[BOOK_DEPTH - 1], lvl(50_000_000, 1_000_000));
}

#[test]
fn snapshot_unreadable_entry_reads_zero() {
    let mut b = book_with_bids(&[5]);
    b.apply_depth_text(r#"{"bids":[["x", 3]]}"#);
    assert_eq!(b.bids[0], lvl(0, 0));
}

#[test]
fn snapshot_twice_is_snapshot_once() {
    let msg = r#"{"bids":[["10.5","1"],["10.4","2"]],"asks":[["10.6","3"]],"timestampms":42}"#;
    let mut once = book_with_bids(&[1, 2, 3]);
    once.apply_depth_text(msg);
    let mut twice = once;
    twice.apply_depth_text(msg);
    assert_eq!(once.to_words(), twice.to_words());
}

#[test]
fn removal_clears_only_its_slot() {
    let mut b = book_with_bids(&[100_000_000, 90_000_000, 80_000_000]);
    b.apply_depth_text(r#"{"changes":[["buy","90","0"]]}"#);
    assert_eq!(b.bids[0], lvl(100_000_000, 1));
    assert_eq!(b.bids[1], lvl(0, 0));
    assert_eq!(b.bids[2], lvl(80_000_000, 1));
}

#[test]
fn better_bid_takes_top_slot() {
    let mut b = book_with_bids(&[100_000_000, 90_000_000]);
    b.apply_depth_text(r#"{"changes":[["buy","101","3"]]}"#);
    assert_eq!(b.bids[0], lvl(101_000_000, 3_000_000));
    assert_eq!(b.bids[1], lvl(90_000_000, 1));
}

#[test]
fn change_updates_quantity_at_same_price() {
    let mut b = OrderBook::new();
    b.update_ask(0, 10_000_000, 1);
    b.update_ask(1, 11_000_000, 1);
    b.apply_depth_text(r#"{"changes":[["sell","11","4"]],"timestampms":7}"#);
    assert_eq!(b.asks[0], lvl(10_000_000, 1));
    assert_eq!(b.asks[1], lvl(11_000_000, 4_000_000));
    assert_eq!(b.timestamp_ms, 7);
}

#[test]
fn ask_change_claims_first_empty_slot() {
    let mut b = OrderBook::new();
    b.update_ask(0, 10_000_000, 1);
    b.apply_depth_text(r#"{"changes":[["sell","12","2"]]}"#);
    assert_eq!(b.asks[1], lvl(12_000_000, 2_000_000));
}

#[test]
fn side_text_is_case_insensitive() {
    let mut b = OrderBook::new();
    b.apply_depth_text(r#"{"changes":[["BUY","5","1"]]}"#);
    assert_eq!(b.bids[0], lvl(5_000_000, 1_000_000));
    assert_eq!(b.asks[0], lvl(0, 0));
}

#[test]
fn change_beyond_scan_window_is_dropped() {
    let prices: Vec<u64> = (0..12).map(|i| 100 - i).collect();
    let mut b = book_with_bids(&prices);
    b.apply_depth_text(r#"{"changes":[["buy","0.000001","9"]]}"#);
    for (i, p) in prices.iter().enumerate() {
        assert_eq!(b.bids[i], lvl(*p, 1));
    }
}

#[test]
fn unreadable_change_is_skipped() {
    let mut b = OrderBook::new();
    b.apply_depth_text(r#"{"changes":[["buy","abc","1"],["buy","2"],["sell","3","1"]]}"#);
    assert_eq!(b.bids[0], lvl(0, 0));
    assert_eq!(b.asks[0], lvl(3_000_000, 1_000_000));
}

#[test]
fn malformed_frame_changes_nothing() {
    let mut b = book_with_bids(&[5]);
    assert!(!b.apply_depth_text("{not json"));
    assert_eq!(b.bids[0], lvl(5, 1));
    assert!(b.apply_depth_text(r#"[1,2,3]"#));
    assert_eq!(b.bids[0], lvl(5, 1));
}

#[test]
fn timestamp_alone_is_stored() {
    let mut b = book_with_bids(&[5]);
    b.apply_depth_text(r#"{"timestampms":99}"#);
    assert_eq!(b.timestamp_ms, 99);
    assert_eq!(b.bids[0], lvl(5, 1));
}

#[test]
fn apply_change_directly() {
    let mut b = OrderBook::new();
    b.apply_change(true, 50, 2);
    b.apply_change(false, 60, 3);
    assert_eq!(b.bids[0], lvl(50, 2));
    assert_eq!(b.asks[0], lvl(60, 3));
    b.apply_change(true, 50, 0);
    assert_eq!(b.bids[0], lvl(0, 0));
}
