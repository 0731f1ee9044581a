//! Applying top-of-book feed messages: best-level changes and trades.

use vstd::prelude::*;
use crate::depth::fixed_or_zero;
use crate::fixed::to_fixed;
use crate::json::{
    as_array, as_str, as_u64, json_parsed, member, items, parse_json, same_text, text, unsigned,
    Json,
};
use crate::store::{TopOfBook, TradeEvent};

verus! {

/// What a trade event holds, with its texts as character sequences.
pub struct TradeView {
    pub ts_ms: u64,
    pub symbol: Seq<char>,
    pub price_u: u64,
    pub qty_u: u64,
    pub side: Seq<char>,
}

impl View for TradeEvent {
    type V = TradeView;

    open spec fn view(&self) -> TradeView {
        TradeView {
            ts_ms: self.ts_ms,
            symbol: self.symbol@,
            price_u: self.price_u,
            qty_u: self.qty_u,
            side: self.side@,
        }
    }
}

/// The text of member `key`, or the empty text.
pub open spec fn text_or_empty(e: Json, key: Seq<char>) -> Seq<char> {
    match text(member(e, key)) {
        Some(s) => s,
        None => Seq::empty(),
    }
}

/// The fixed-point value of member `key`; zero where it is missing or unreadable.
pub open spec fn fixed_member(e: Json, key: Seq<char>) -> u64 {
    fixed_or_zero(text(member(e, key)))
}

/// The summary after one event stamped `ts`: a `change` event on side `bid` or
/// `ask` sets that side's price and quantity (`price`, `remaining`), and any
/// `change` event sets the timestamp. Other events leave it as it is.
pub open spec fn event_top(t: TopOfBook, e: Json, ts: u64) -> TopOfBook {
    if text(member(e, "type"@)) == Some("change"@) {
        let side = text_or_empty(e, "side"@);
        let p = fixed_member(e, "price"@);
        let q = fixed_member(e, "remaining"@);
        let t1 = if side == "bid"@ {
            TopOfBook { bid_price: p, bid_qty: q, ..t }
        } else if side == "ask"@ {
            TopOfBook { ask_price: p, ask_qty: q, ..t }
        } else {
            t
        };
        TopOfBook { timestamp_ms: ts, ..t1 }
    } else {
        t
    }
}

/// The trade that an event stamped `ts` reports, for a `trade` event:
/// price from `price`, quantity from `amount`, side from `makerSide`.
pub open spec fn event_trade(e: Json, ts: u64, symbol: Seq<char>) -> Option<TradeView> {
    if text(member(e, "type"@)) == Some("trade"@) {
        Some(TradeView {
            ts_ms: ts,
            symbol,
            price_u: fixed_member(e, "price"@),
            qty_u: fixed_member(e, "amount"@),
            side: text_or_empty(e, "makerSide"@),
        })
    } else {
        None
    }
}

/// The summary after a list of events, in order.
pub open spec fn events_top(t: TopOfBook, evs: Seq<Json>, ts: u64) -> TopOfBook
    decreases evs.len(),
{
    if evs.len() == 0 {
        t
    } else {
        event_top(events_top(t, evs.drop_last(), ts), evs.last(), ts)
    }
}

/// The trades that a list of events reports, in order.
pub open spec fn events_trades(evs: Seq<Json>, ts: u64, symbol: Seq<char>) -> Seq<TradeView>
    decreases evs.len(),
{
    if evs.len() == 0 {
        Seq::empty()
    } else {
        let prev = events_trades(evs.drop_last(), ts, symbol);
        match event_trade(evs.last(), ts, symbol) {
            Some(tr) => prev.push(tr),
            None => prev,
        }
    }
}

/// The message's timestamp, or zero.
pub open spec fn message_ts(msg: Json) -> u64 {
    match unsigned(member(msg, "timestampms"@)) {
        Some(t) => t,
        None => 0,
    }
}

/// The summary after a top-of-book message: its `events` in order, all
/// stamped with the message's `timestampms` (zero where absent).
pub open spec fn top_effect(t: TopOfBook, msg: Json) -> TopOfBook {
    match items(member(msg, "events"@)) {
        Some(evs) => events_top(t, evs, message_ts(msg)),
        None => t,
    }
}

/// The trades that a top-of-book message reports, in order.
pub open spec fn top_trades(msg: Json, symbol: Seq<char>) -> Seq<TradeView> {
    match items(member(msg, "events"@)) {
        Some(evs) => events_trades(evs, message_ts(msg), symbol),
        None => Seq::empty(),
    }
}

/// The views of a list of trade events.
pub open spec fn trade_views(v: Seq<TradeEvent>) -> Seq<TradeView> {
    v.map_values(|t: TradeEvent| t@)
}

fn fixed_field(e: &Json, key: &str) -> (r: u64)
    ensures
        r == fixed_member(*e, key@),
{
    match as_str(e.get(key)) {
        Some(s) => to_fixed(s),
        None => 0,
    }
}

fn owned_text(s: Option<&str>) -> (r: String)
    ensures
        r@ == match s {
            Some(x) => x@,
            None => Seq::<char>::empty(),
        },
{
    match s {
        Some(x) => x.to_owned(),
        None => String::new(),
    }
}

impl TopOfBook {
    /// Applies one event stamped `ts`; returns the trade it reports, if any.
    pub fn apply_event(&mut self, e: &Json, ts: u64, symbol: &str) -> (r: Option<TradeEvent>)
        ensures
            *final(self) == event_top(*old(self), *e, ts),
            match r {
                Some(tr) => event_trade(*e, ts, symbol@) == Some(tr@),
                None => event_trade(*e, ts, symbol@) is None,
            },
    {
        proof {
            reveal_strlit("change");
            reveal_strlit("trade");
        }
        let kind = as_str(e.get("type"));
        match kind {
            Some(k) => {
                if same_text(k, "change") {
                    assert(k@ != "trade"@) by {
                        assert("change"@.len() != "trade"@.len());
                    }
                    let side = owned_text(as_str(e.get("side")));
                    let p = fixed_field(e, "price");
                    let q = fixed_field(e, "remaining");
                    if same_text(side.as_str(), "bid") {
                        self.set_bid(p, q);
                    } else if same_text(side.as_str(), "ask") {
                        self.set_ask(p, q);
                    }
                    self.set_ts(ts);
                    None
                } else if same_text(k, "trade") {
                    let price_u = fixed_field(e, "price");
                    let qty_u = fixed_field(e, "amount");
                    let side = owned_text(as_str(e.get("makerSide")));
                    Some(TradeEvent { ts_ms: ts, symbol: symbol.to_owned(), price_u, qty_u, side })
                } else {
                    None
                }
            },
            None => None,
        }
    }

    /// Applies a top-of-book message: each event of its `events` list in
    /// order, stamped with the message's `timestampms` (zero where absent).
    /// Returns the trades that it reports, in order, for `symbol`.
    pub fn apply_top_message(&mut self, msg: &Json, symbol: &str) -> (r: Vec<TradeEvent>)
        ensures
            *final(self) == top_effect(*old(self), *msg),
            trade_views(r@) == top_trades(*msg, symbol@),
    {
        let mut trades: Vec<TradeEvent> = Vec::new();
        match as_array(msg.get("events")) {
            Some(evs) => {
                let ts = match as_u64(msg.get("timestampms")) {
                    Some(t) => t,
                    None => 0,
                };
                let mut i: usize = 0;
                while i < evs.len()
                    invariant
                        i <= evs@.len(),
                        ts == message_ts(*msg),
                        items(member(*msg, "events"@)) == Some(evs@),
                        *self == events_top(*old(self), evs@.take(i as int), ts),
                        trade_views(trades@) == events_trades(evs@.take(i as int), ts, symbol@),
                    decreases evs@.len() - i,
                {
                    assert(evs@.take(i + 1).drop_last() =~= evs@.take(i as int));
                    assert(evs@.take(i + 1).last() == evs@[i as int]);
                    let r = self.apply_event(&evs[i], ts, symbol);
                    match r {
                        Some(tr) => {
                            trades.push(tr);
                            assert(trade_views(trades@) =~= events_trades(evs@.take(i + 1), ts, symbol@));
                        },
                        None => {},
                    }
                    i = i + 1;
                }
                assert(evs@.take(evs@.len() as int) =~= evs@);
            },
            None => {},
        }
        assert(trade_views(trades@) =~= top_trades(*msg, symbol@));
        trades
    }

    /// Parses a top-of-book frame and applies it; text that is not JSON
    /// changes nothing and reports no trade.
    pub fn apply_top_text(&mut self, text: &str, symbol: &str) -> (r: Vec<TradeEvent>)
        ensures
            match json_parsed(text@) {
                Some(m) => *final(self) == top_effect(*old(self), m)
                    && trade_views(r@) == top_trades(m, symbol@),
                None => *final(self) == *old(self) && r@.len() == 0,
            },
    {
        match parse_json(text) {
            Some(m) => self.apply_top_message(&m, symbol),
            None => Vec::new(),
        }
    }
}

} // verus!
