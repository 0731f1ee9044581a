//! The byte-exact layout of the shared files, as a sequence of `u64` words.
//!
//! Book file: for each of the `BOOK_DEPTH` bid slots its price then its
//! quantity, the same for the ask slots, then the timestamp. Top-of-book
//! file: bid price, bid quantity, ask price, ask quantity, timestamp. Words are
//! stored in the host's byte order, each at a multiple of eight bytes.

use vstd::prelude::*;
use crate::store::{level, BookView, OrderBook, TopOfBook, BOOK_DEPTH};

verus! {

/// Number of `u64` words in the book file.
pub const BOOK_WORDS: usize = 4 * BOOK_DEPTH + 1;

/// Number of `u64` words in the top-of-book file.
pub const TOP_WORDS: usize = 5;

/// Size of the book file in bytes.
pub const BOOK_FILE_LEN: usize = 8 * BOOK_WORDS;

/// Size of the top-of-book file in bytes.
pub const TOP_FILE_LEN: usize = 8 * TOP_WORDS;

/// Word `k` of a book's file image.
pub open spec fn book_word(b: BookView, k: int) -> u64 {
    if k < 2 * BOOK_DEPTH {
        if k % 2 == 0 { b.bids[k / 2].price } else { b.bids[k / 2].qty }
    } else if k < 4 * BOOK_DEPTH {
        let j = k - 2 * BOOK_DEPTH;
        if j % 2 == 0 { b.asks[j / 2].price } else { b.asks[j / 2].qty }
    } else {
        b.timestamp_ms
    }
}

/// The file image of a top-of-book summary.
pub open spec fn top_image(t: TopOfBook) -> Seq<u64> {
    seq![t.bid_price, t.bid_qty, t.ask_price, t.ask_qty, t.timestamp_ms]
}

impl OrderBook {
    /// The book's file image, word by word.
    pub fn to_words(&self) -> (r: Vec<u64>)
        ensures
            r@.len() == BOOK_WORDS,
            forall|k: int| 0 <= k < BOOK_WORDS ==> #[trigger] r@[k] == book_word(self@, k),
    {
        let mut r: Vec<u64> = Vec::new();
        let mut i: usize = 0;
        while i < BOOK_DEPTH
            invariant
                i <= BOOK_DEPTH,
                r@.len() == 2 * i,
                forall|k: int| 0 <= k < 2 * i ==> #[trigger] r@[k] == book_word(self@, k),
            decreases BOOK_DEPTH - i,
        {
            r.push(self.bids[i].price);
            r.push(self.bids[i].qty);
            i = i + 1;
        }
        let mut i: usize = 0;
        while i < BOOK_DEPTH
            invariant
                i <= BOOK_DEPTH,
                r@.len() == 2 * BOOK_DEPTH + 2 * i,
                forall|k: int| 0 <= k < 2 * BOOK_DEPTH + 2 * i ==> #[trigger] r@[k] == book_word(self@, k),
            decreases BOOK_DEPTH - i,
        {
            r.push(self.asks[i].price);
            r.push(self.asks[i].qty);
            i = i + 1;
        }
        r.push(self.timestamp_ms);
        r
    }

    /// The book that a file image holds.
    pub fn from_words(w: &[u64]) -> (r: OrderBook)
        requires
            w@.len() == BOOK_WORDS,
        ensures
            forall|k: int| 0 <= k < BOOK_WORDS ==> book_word(r@, k) == #[trigger] w@[k],
    {
        let mut b = OrderBook::new();
        let mut i: usize = 0;
        while i < BOOK_DEPTH
            invariant
                i <= BOOK_DEPTH,
                w@.len() == BOOK_WORDS,
                forall|j: int| 0 <= j < i ==> #[trigger] b@.bids[j] == level(w@[2 * j], w@[2 * j + 1]),
                forall|j: int| 0 <= j < i ==> #[trigger] b@.asks[j]
                    == level(w@[2 * BOOK_DEPTH + 2 * j], w@[2 * BOOK_DEPTH + 2 * j + 1]),
            decreases BOOK_DEPTH - i,
        {
            b.update_bid(i, w[2 * i], w[2 * i + 1]);
            b.update_ask(i, w[2 * BOOK_DEPTH + 2 * i], w[2 * BOOK_DEPTH + 2 * i + 1]);
            i = i + 1;
        }
        b.set_ts(w[4 * BOOK_DEPTH]);
        assert forall|k: int| 0 <= k < BOOK_WORDS implies book_word(b@, k) == #[trigger] w@[k] by {
            if k < 2 * BOOK_DEPTH {
                let j = k / 2;
                assert(b@.bids[j] == level(w@[2 * j], w@[2 * j + 1]));
            } else if k < 4 * BOOK_DEPTH {
                let j = (k - 2 * BOOK_DEPTH) / 2;
                assert(b@.asks[j] == level(w@[2 * BOOK_DEPTH + 2 * j], w@[2 * BOOK_DEPTH + 2 * j + 1]));
            }
        }
        b
    }
}

impl TopOfBook {
    /// The summary's file image.
    pub fn to_words(&self) -> (r: Vec<u64>)
        ensures
            r@ == top_image(*self),
    {
        let r = vec![self.bid_price, self.bid_qty, self.ask_price, self.ask_qty, self.timestamp_ms];
        assert(r@ =~= top_image(*self));
        r
    }

    /// The summary that a file image holds.
    pub fn from_words(w: &[u64]) -> (r: TopOfBook)
        requires
            w@.len() == TOP_WORDS,
        ensures
            top_image(r) == w@,
    {
        let r = TopOfBook { bid_price: w[0], bid_qty: w[1], ask_price: w[2], ask_qty: w[3], timestamp_ms: w[4] };
        assert(top_image(r) =~= w@);
        r
    }
}

/// Two books with the same file image are the same book: so reading back
/// (`from_words`) the image that `to_words` wrote gives the book written.
pub proof fn lemma_book_image_round_trip(a: BookView, b: BookView)
    requires
        a.bids.len() == BOOK_DEPTH,
        a.asks.len() == BOOK_DEPTH,
        b.bids.len() == BOOK_DEPTH,
        b.asks.len() == BOOK_DEPTH,
        forall|k: int| 0 <= k < BOOK_WORDS ==> book_word(a, k) == #[trigger] book_word(b, k),
    ensures
        a == b,
{
    assert forall|j: int| 0 <= j < BOOK_DEPTH implies a.bids[j] == b.bids[j] by {
        assert(book_word(a, 2 * j) == book_word(b, 2 * j));
        assert(book_word(a, 2 * j + 1) == book_word(b, 2 * j + 1));
    }
    assert forall|j: int| 0 <= j < BOOK_DEPTH implies a.asks[j] == b.asks[j] by {
        assert(book_word(a, 2 * BOOK_DEPTH + 2 * j) == book_word(b, 2 * BOOK_DEPTH + 2 * j));
        assert(book_word(a, 2 * BOOK_DEPTH + 2 * j + 1) == book_word(b, 2 * BOOK_DEPTH + 2 * j + 1));
    }
    assert(book_word(a, 4 * BOOK_DEPTH) == book_word(b, 4 * BOOK_DEPTH));
    assert(a.bids =~= b.bids);
    assert(a.asks =~= b.asks);
}

} // verus!
