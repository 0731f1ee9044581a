use market_data::TopOfBook;

#[test]
fn trade_event_end_to_end() {
    let mut t = TopOfBook::new();
    let trades = t.apply_top_text(
        r#"{"timestampms":1700000000000,"events":[{"type":"trade","price":"145.90","amount":"1.0","makerSide":"ask"}]}"#,
        "SOLUSD",
    );
    assert_eq!(trades.len(), 1);
    let tr = &trades[0];
    assert_eq!(tr.ts_ms, 1700000000000);
    assert_eq!(tr.symbol, "SOLUSD");
    assert_eq!(tr.price_u, 145_900_000);
    assert_eq!(tr.qty_u, 1_000_000);
    assert_eq!(tr.side, "ask");
    assert_eq!(t, TopOfBook::new());
}

#[test]
fn change_events_set_best_levels() {
    let mut t = TopOfBook::new();
    let trades = t.apply_top_text(
        r#"{"timestampms":5,"events":[
            {"type":"change","side":"bid","price":"145.85","remaining":"2.5"},
            {"type":"change","side":"ask","price":"145.90","remaining":"1.8"},
            {"type":"other","side":"bid","price":"1","remaining":"1"}]}"#,
        "SOLUSD",
    );
    assert!(trades.is_empty());
    assert_eq!(t.bid_price, 145_850_000);
    assert_eq!(t.bid_qty, 2_500_000);
    assert_eq!(t.ask_price, 145_900_000);
    assert_eq!(t.ask_qty, 1_800_000);
    assert_eq!(t.timestamp_ms, 5);
}

#[test]
fn change_with_unknown_side_only_stamps() {
    let mut t = TopOfBook::new();
    t.set_bid(1, 2);
    t.apply_top_text(r#"{"timestampms":9,"events":[{"type":"change","side":"mid","price":"3"}]}"#, "SOLUSD");
    assert_eq!(t.bid_price, 1);
    assert_eq!(t.bid_qty, 2);
    assert_eq!(t.timestamp_ms, 9);
}

#[test]
fn trades_keep_order_and_defaults() {
    let mut t = TopOfBook::new();
    let trades = t.apply_top_text(
        r#"{"events":[{"type":"trade","price":"1","amount":"2","makerSide":"bid"},{"type":"trade"}]}"#,
        "SOLUSD",
    );
    assert_eq!(trades.len(), 2);
    assert_eq!(trades[0].price_u, 1_000_000);
    assert_eq!(trades[0].side, "bid");
    assert_eq!(trades[0].ts_ms, 0);
    assert_eq!(trades[1].price_u, 0);
    assert_eq!(trades[1].qty_u, 0);
    assert_eq!(trades[1].side, "");
}

#[test]
fn unparsable_top_frame_is_ignored() {
    let mut t = TopOfBook::new();
    assert!(t.apply_top_text("nope", "SOLUSD").is_empty());
    assert_eq!(t, TopOfBook::new());
}
