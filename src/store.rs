//! The book and top-of-book stores and their fixed binary layout.

use vstd::prelude::*;

verus! {

/// Number of price levels held on each side of the book.
pub const BOOK_DEPTH: usize = 50;

/// One price level: fixed-point price and quantity (scale 1e-6); a zero
/// price marks an empty slot.
#[derive(Clone, Copy, PartialEq, Eq, Structural, Debug)]
pub struct OrderLevel {
    pub price: u64,
    pub qty: u64,
}

impl OrderLevel {
    /// An empty level.
    pub fn new() -> (r: Self)
        ensures
            r.price == 0,
            r.qty == 0,
    {
        OrderLevel { price: 0, qty: 0 }
    }

    pub fn load_price(&self) -> (r: u64)
        ensures
            r == self.price,
    {
        self.price
    }

    pub fn store_price(&mut self, v: u64)
        ensures
            final(self).price == v,
            final(self).qty == old(self).qty,
    {
        self.price = v;
    }

    pub fn load_qty(&self) -> (r: u64)
        ensures
            r == self.qty,
    {
        self.qty
    }

    pub fn store_qty(&mut self, v: u64)
        ensures
            final(self).qty == v,
            final(self).price == old(self).price,
    {
        self.qty = v;
    }
}

impl Default for OrderLevel {
    fn default() -> (r: Self)
        ensures
            r == level(0, 0),
    {
        OrderLevel::new()
    }
}

/// The level `(price, qty)`.
pub open spec fn level(price: u64, qty: u64) -> OrderLevel {
    OrderLevel { price, qty }
}

/// The full-depth book: `BOOK_DEPTH` bid slots, `BOOK_DEPTH` ask slots and the
/// time of the last update in milliseconds.
#[derive(Clone, Copy, Debug)]
pub struct OrderBook {
    pub bids: [OrderLevel; BOOK_DEPTH],
    pub asks: [OrderLevel; BOOK_DEPTH],
    pub timestamp_ms: u64,
}

/// What a book holds, as sequences of levels.
pub struct BookView {
    pub bids: Seq<OrderLevel>,
    pub asks: Seq<OrderLevel>,
    pub timestamp_ms: u64,
}

/// A view of a book with `BOOK_DEPTH` slots on each side.
pub open spec fn book_view_wf(v: BookView) -> bool {
    &&& v.bids.len() == BOOK_DEPTH
    &&& v.asks.len() == BOOK_DEPTH
}

impl View for OrderBook {
    type V = BookView;

    open spec fn view(&self) -> BookView {
        BookView { bids: self.bids@, asks: self.asks@, timestamp_ms: self.timestamp_ms }
    }
}

impl OrderBook {
    /// A book whose slots are all empty and whose timestamp is zero.
    pub fn new() -> (r: Self)
        ensures
            book_view_wf(r@),
            forall|i: int| 0 <= i < BOOK_DEPTH ==> #[trigger] r@.bids[i] == level(0, 0),
            forall|i: int| 0 <= i < BOOK_DEPTH ==> #[trigger] r@.asks[i] == level(0, 0),
            r.timestamp_ms == 0,
    {
        let empty = OrderLevel::new();
        let bids: [OrderLevel; BOOK_DEPTH] = [empty; BOOK_DEPTH];
        let asks: [OrderLevel; BOOK_DEPTH] = [empty; BOOK_DEPTH];
        OrderBook { bids, asks, timestamp_ms: 0 }
    }

    /// Overwrites bid slot `i`; an index past the depth changes nothing.
    pub fn update_bid(&mut self, i: usize, price: u64, qty: u64)
        ensures
            i < BOOK_DEPTH ==> final(self)@.bids == old(self)@.bids.update(i as int, level(price, qty)),
            i >= BOOK_DEPTH ==> final(self)@.bids == old(self)@.bids,
            final(self)@.asks == old(self)@.asks,
            final(self).timestamp_ms == old(self).timestamp_ms,
    {
        if i < BOOK_DEPTH {
            self.bids[i].store_price(price);
            self.bids[i].store_qty(qty);
        }
    }

    /// Overwrites ask slot `i`; an index past the depth changes nothing.
    pub fn update_ask(&mut self, i: usize, price: u64, qty: u64)
        ensures
            i < BOOK_DEPTH ==> final(self)@.asks == old(self)@.asks.update(i as int, level(price, qty)),
            i >= BOOK_DEPTH ==> final(self)@.asks == old(self)@.asks,
            final(self)@.bids == old(self)@.bids,
            final(self).timestamp_ms == old(self).timestamp_ms,
    {
        if i < BOOK_DEPTH {
            self.asks[i].store_price(price);
            self.asks[i].store_qty(qty);
        }
    }

    pub fn set_ts(&mut self, ts: u64)
        ensures
            final(self)@.bids == old(self)@.bids,
            final(self)@.asks == old(self)@.asks,
            final(self).timestamp_ms == ts,
    {
        self.timestamp_ms = ts;
    }
}

impl Default for OrderBook {
    fn default() -> (r: Self)
        ensures
            forall|i: int| 0 <= i < BOOK_DEPTH ==> #[trigger] r@.bids[i] == level(0, 0),
            forall|i: int| 0 <= i < BOOK_DEPTH ==> #[trigger] r@.asks[i] == level(0, 0),
            r.timestamp_ms == 0,
    {
        OrderBook::new()
    }
}

/// Best bid and ask with their quantities, and the time of the last change.
#[derive(Clone, Copy, PartialEq, Eq, Structural, Debug)]
pub struct TopOfBook {
    pub bid_price: u64,
    pub bid_qty: u64,
    pub ask_price: u64,
    pub ask_qty: u64,
    pub timestamp_ms: u64,
}

impl TopOfBook {
    /// An empty summary: every field zero.
    pub fn new() -> (r: Self)
        ensures
            r == (TopOfBook { bid_price: 0, bid_qty: 0, ask_price: 0, ask_qty: 0, timestamp_ms: 0 }),
    {
        TopOfBook { bid_price: 0, bid_qty: 0, ask_price: 0, ask_qty: 0, timestamp_ms: 0 }
    }

    pub fn set_bid(&mut self, p: u64, q: u64)
        ensures
            *final(self) == (TopOfBook { bid_price: p, bid_qty: q, ..*old(self) }),
    {
        self.bid_price = p;
        self.bid_qty = q;
    }

    pub fn set_ask(&mut self, p: u64, q: u64)
        ensures
            *final(self) == (TopOfBook { ask_price: p, ask_qty: q, ..*old(self) }),
    {
        self.ask_price = p;
        self.ask_qty = q;
    }

    pub fn set_ts(&mut self, ts: u64)
        ensures
            *final(self) == (TopOfBook { timestamp_ms: ts, ..*old(self) }),
    {
        self.timestamp_ms = ts;
    }
}

impl Default for TopOfBook {
    fn default() -> (r: Self)
        ensures
            r == (TopOfBook { bid_price: 0, bid_qty: 0, ask_price: 0, ask_qty: 0, timestamp_ms: 0 }),
    {
        TopOfBook::new()
    }
}

/// An executed trade, ready to be handed to the publisher: time in
/// milliseconds, instrument, fixed-point price and quantity, maker side.
#[derive(Clone, Debug)]
pub struct TradeEvent {
    pub ts_ms: u64,
    pub symbol: String,
    pub price_u: u64,
    pub qty_u: u64,
    pub side: String,
}

} // verus!
