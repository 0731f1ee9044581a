//! Applying depth-feed messages (snapshots and incremental changes) to a book.

use vstd::prelude::*;
use crate::fixed::{fixed_of, parsed_fixed, parse_fixed, to_fixed};
use crate::json::{
    as_array, as_str, as_u64, element, items, json_parsed, member, parse_json, text, unsigned,
    Json,
};
use crate::store::{level, book_view_wf, BookView, OrderBook, OrderLevel, BOOK_DEPTH};

verus! {

/// How many slots from the top an incremental change may claim.
pub const CHANGE_SCAN: usize = 10;

/// Fixed-point value of an optional text; zero where there is none.
pub open spec fn fixed_or_zero(t: Option<Seq<char>>) -> u64 {
    match t {
        Some(s) => fixed_of(s),
        None => 0,
    }
}

/// The level that a snapshot entry `[price, quantity]` stands for.
pub open spec fn entry_level(e: Json) -> OrderLevel {
    level(fixed_or_zero(text(element(e, 0))), fixed_or_zero(text(element(e, 1))))
}

/// A side after a snapshot list: slot `i` takes entry `i`, for every `i`
/// below both the list's length and the depth; other slots keep their level.
pub open spec fn overwrite(side: Seq<OrderLevel>, list: Seq<Json>) -> Seq<OrderLevel> {
    Seq::new(side.len(), |i: int| if i < list.len() && i < BOOK_DEPTH { entry_level(list[i]) } else { side[i] })
}

/// Whether price `p` ranks strictly ahead of `cur` on its side: higher for
/// bids, lower (and nonzero) for asks.
pub open spec fn ranks_ahead(is_bid: bool, p: u64, cur: u64) -> bool {
    if is_bid { p > cur } else { cur > p && p > 0 }
}

/// Whether a change `(pu, qu)` claims a slot holding price `cur`: a removal of
/// that price, an empty slot, a slot it ranks ahead of, or the same price.
pub open spec fn claims(is_bid: bool, pu: u64, qu: u64, cur: u64) -> bool {
    ||| (qu == 0 && cur == pu)
    ||| cur == 0
    ||| ranks_ahead(is_bid, pu, cur)
    ||| cur == pu
}

/// What a claimed slot becomes: empty for a removal, else `(pu, qu)`.
pub open spec fn claimed_level(pu: u64, qu: u64, cur: u64) -> OrderLevel {
    if qu == 0 && cur == pu { level(0, 0) } else { level(pu, qu) }
}

/// A side after a change, scanning from slot `i`: the first slot below
/// `CHANGE_SCAN` that the change claims is rewritten; the rest stay.
pub open spec fn change_from(side: Seq<OrderLevel>, is_bid: bool, pu: u64, qu: u64, i: int) -> Seq<OrderLevel>
    decreases CHANGE_SCAN - i,
{
    if i >= CHANGE_SCAN || i >= side.len() || i < 0 {
        side
    } else if claims(is_bid, pu, qu, side[i].price) {
        side.update(i, claimed_level(pu, qu, side[i].price))
    } else {
        change_from(side, is_bid, pu, qu, i + 1)
    }
}

/// A side after one incremental change `(pu, qu)`.
pub open spec fn change_side(side: Seq<OrderLevel>, is_bid: bool, pu: u64, qu: u64) -> Seq<OrderLevel> {
    change_from(side, is_bid, pu, qu, 0)
}

/// The book after one change on the side that `is_bid` names.
pub open spec fn change_book(b: BookView, is_bid: bool, pu: u64, qu: u64) -> BookView {
    if is_bid {
        BookView { bids: change_side(b.bids, true, pu, qu), ..b }
    } else {
        BookView { asks: change_side(b.asks, false, pu, qu), ..b }
    }
}

pub open spec fn ascii_lower(c: char) -> char {
    if 'A' <= c && c <= 'Z' { ((c as u32) + 32) as char } else { c }
}

/// Whether a side text names the bid side: `buy`, in any ASCII case.
pub open spec fn names_buy(s: Seq<char>) -> bool {
    s.len() == 3 && ascii_lower(s[0]) == 'b' && ascii_lower(s[1]) == 'u' && ascii_lower(s[2]) == 'y'
}

/// A change triple `[side, price, quantity]` with both numbers readable, as
/// `(is_bid, pu, qu)`; `None` for anything else.
pub open spec fn change_of(ch: Json) -> Option<(bool, u64, u64)> {
    match (text(element(ch, 0)), text(element(ch, 1)), text(element(ch, 2))) {
        (Some(side), Some(p), Some(q)) => match (parsed_fixed(p), parsed_fixed(q)) {
            (Some(pu), Some(qu)) => Some((names_buy(side), pu, qu)),
            _ => None,
        },
        _ => None,
    }
}

/// The book after a list of changes, applied in order; unreadable ones are
/// skipped.
pub open spec fn changes_effect(b: BookView, chs: Seq<Json>) -> BookView
    decreases chs.len(),
{
    if chs.len() == 0 {
        b
    } else {
        let prev = changes_effect(b, chs.drop_last());
        match change_of(chs.last()) {
            Some((is_bid, pu, qu)) => change_book(prev, is_bid, pu, qu),
            None => prev,
        }
    }
}

/// The book after a depth message: the `bids` list, then the `asks` list,
/// then the `changes` list, then the `timestampms` field, each where present.
pub open spec fn depth_effect(b: BookView, msg: Json) -> BookView {
    let b1 = match items(member(msg, "bids"@)) {
        Some(l) => BookView { bids: overwrite(b.bids, l), ..b },
        None => b,
    };
    let b2 = match items(member(msg, "asks"@)) {
        Some(l) => BookView { asks: overwrite(b1.asks, l), ..b1 },
        None => b1,
    };
    let b3 = match items(member(msg, "changes"@)) {
        Some(l) => changes_effect(b2, l),
        None => b2,
    };
    match unsigned(member(msg, "timestampms"@)) {
        Some(t) => BookView { timestamp_ms: t, ..b3 },
        None => b3,
    }
}

/// Whether `s` names the bid side: `buy` in any ASCII case.
pub fn is_buy(s: &str) -> (r: bool)
    ensures
        r == names_buy(s@),
{
    if s.unicode_len() != 3 {
        return false;
    }
    let a = s.get_char(0);
    let b = s.get_char(1);
    let c = s.get_char(2);
    (a == 'b' || a == 'B') && (b == 'u' || b == 'U') && (c == 'y' || c == 'Y')
}

/// Reads a change triple `[side, price, quantity]`.
pub fn read_change(ch: &Json) -> (r: Option<(bool, u64, u64)>)
    ensures
        r == change_of(*ch),
{
    let side = as_str(ch.at(0));
    let p = as_str(ch.at(1));
    let q = as_str(ch.at(2));
    match (side, p, q) {
        (Some(side), Some(p), Some(q)) => match (parse_fixed(p), parse_fixed(q)) {
            (Some(pu), Some(qu)) => Some((is_buy(side), pu, qu)),
            _ => None,
        },
        _ => None,
    }
}

/// Reads a snapshot entry `[price, quantity]`; a missing or unreadable number
/// reads as zero.
pub fn read_entry(e: &Json) -> (r: (u64, u64))
    ensures
        level(r.0, r.1) == entry_level(*e),
{
    let p = match as_str(e.at(0)) {
        Some(s) => to_fixed(s),
        None => 0,
    };
    let q = match as_str(e.at(1)) {
        Some(s) => to_fixed(s),
        None => 0,
    };
    (p, q)
}

impl OrderBook {
    /// Applies one incremental change to the bid side (`is_bid`) or the ask
    /// side: the first of the top `CHANGE_SCAN` slots that the change claims
    /// is emptied (a removal of its price) or set to `(pu, qu)`. No slot moves.
    pub fn apply_change(&mut self, is_bid: bool, pu: u64, qu: u64)
        ensures
            final(self)@ == change_book(old(self)@, is_bid, pu, qu),
    {
        let ghost side0 = if is_bid { self@.bids } else { self@.asks };
        let mut i: usize = 0;
        while i < CHANGE_SCAN
            invariant
                i <= CHANGE_SCAN,
                *self == *old(self),
                side0 == if is_bid { self@.bids } else { self@.asks },
                side0.len() == BOOK_DEPTH,
                change_side(side0, is_bid, pu, qu) == change_from(side0, is_bid, pu, qu, i as int),
            decreases CHANGE_SCAN - i,
        {
            let cur = if is_bid { self.bids[i].load_price() } else { self.asks[i].load_price() };
            if (qu == 0 && cur == pu) || cur == 0 || (if is_bid { pu > cur } else { cur > pu && pu > 0 }) || cur == pu {
                let (np, nq) = if qu == 0 && cur == pu { (0u64, 0u64) } else { (pu, qu) };
                assert(level(np, nq) == claimed_level(pu, qu, cur));
                if is_bid {
                    self.update_bid(i, np, nq);
                } else {
                    self.update_ask(i, np, nq);
                }
                return;
            }
            i = i + 1;
        }
    }
}

impl OrderBook {
    /// Overwrites bid slots (`is_bid`) or ask slots by position from a
    /// snapshot list, up to the depth.
    pub fn apply_snapshot(&mut self, is_bid: bool, list: &Vec<Json>)
        ensures
            is_bid ==> final(self)@ == (BookView { bids: overwrite(old(self)@.bids, list@), ..old(self)@ }),
            !is_bid ==> final(self)@ == (BookView { asks: overwrite(old(self)@.asks, list@), ..old(self)@ }),
    {
        let n = if list.len() < BOOK_DEPTH { list.len() } else { BOOK_DEPTH };
        let mut i: usize = 0;
        while i < n
            invariant
                n <= list@.len(),
                n <= BOOK_DEPTH,
                i <= n,
                self.timestamp_ms == old(self).timestamp_ms,
                is_bid ==> self@.asks == old(self)@.asks,
                !is_bid ==> self@.bids == old(self)@.bids,
                is_bid ==> self@.bids == Seq::new(BOOK_DEPTH as nat, |j: int|
                    if j < i { entry_level(list@[j]) } else { old(self)@.bids[j] }),
                !is_bid ==> self@.asks == Seq::new(BOOK_DEPTH as nat, |j: int|
                    if j < i { entry_level(list@[j]) } else { old(self)@.asks[j] }),
            decreases n - i,
        {
            let (p, q) = read_entry(&list[i]);
            if is_bid {
                self.update_bid(i, p, q);
                assert(self@.bids =~= Seq::new(BOOK_DEPTH as nat, |j: int|
                    if j < i + 1 { entry_level(list@[j]) } else { old(self)@.bids[j] }));
            } else {
                self.update_ask(i, p, q);
                assert(self@.asks =~= Seq::new(BOOK_DEPTH as nat, |j: int|
                    if j < i + 1 { entry_level(list@[j]) } else { old(self)@.asks[j] }));
            }
            i = i + 1;
        }
        assert(is_bid ==> self@.bids =~= overwrite(old(self)@.bids, list@));
        assert(!is_bid ==> self@.asks =~= overwrite(old(self)@.asks, list@));
    }

    /// Applies a list of change triples in order; unreadable ones are skipped.
    pub fn apply_changes(&mut self, chs: &Vec<Json>)
        ensures
            final(self)@ == changes_effect(old(self)@, chs@),
    {
        let mut i: usize = 0;
        while i < chs.len()
            invariant
                i <= chs@.len(),
                self@ == changes_effect(old(self)@, chs@.take(i as int)),
            decreases chs@.len() - i,
        {
            assert(chs@.take(i + 1).drop_last() =~= chs@.take(i as int));
            assert(chs@.take(i + 1).last() == chs@[i as int]);
            match read_change(&chs[i]) {
                Some((is_bid, pu, qu)) => self.apply_change(is_bid, pu, qu),
                None => {},
            }
            i = i + 1;
        }
        assert(chs@.take(chs@.len() as int) =~= chs@);
    }

    /// Applies one depth-feed message: a `bids` list overwrites bid slots by
    /// position, an `asks` list ask slots, a `changes` list is applied change
    /// by change, and a `timestampms` integer becomes the book's timestamp.
    /// Anything else in the message is ignored.
    pub fn apply_depth_message(&mut self, msg: &Json)
        ensures
            final(self)@ == depth_effect(old(self)@, *msg),
    {
        if let Some(bids) = as_array(msg.get("bids")) {
            self.apply_snapshot(true, bids);
        }
        if let Some(asks) = as_array(msg.get("asks")) {
            self.apply_snapshot(false, asks);
        }
        if let Some(chs) = as_array(msg.get("changes")) {
            self.apply_changes(chs);
        }
        if let Some(ts) = as_u64(msg.get("timestampms")) {
            self.set_ts(ts);
        }
    }
}

/// A snapshot message: one without a `changes` list.
pub open spec fn is_snapshot(msg: Json) -> bool {
    items(member(msg, "changes"@)) is None
}

/// After a snapshot message, slot `i` of each side that the message lists
/// holds entry `i` of that list, for every `i` below the list's length and the
/// depth.
pub proof fn lemma_snapshot_slots(b: BookView, msg: Json, i: int)
    requires
        book_view_wf(b),
        is_snapshot(msg),
        0 <= i < BOOK_DEPTH,
    ensures
        match items(member(msg, "bids"@)) {
            Some(l) => i < l.len() ==> depth_effect(b, msg).bids[i] == entry_level(l[i]),
            None => true,
        },
        match items(member(msg, "asks"@)) {
            Some(l) => i < l.len() ==> depth_effect(b, msg).asks[i] == entry_level(l[i]),
            None => true,
        },
{
}

/// Applying the same snapshot message twice leaves the book as applying it
/// once does.
pub proof fn lemma_snapshot_idempotent(b: BookView, msg: Json)
    requires
        is_snapshot(msg),
    ensures
        depth_effect(depth_effect(b, msg), msg) == depth_effect(b, msg),
{
    let once = depth_effect(b, msg);
    let twice = depth_effect(once, msg);
    if let Some(l) = items(member(msg, "bids"@)) {
        assert(overwrite(overwrite(b.bids, l), l) =~= overwrite(b.bids, l));
    }
    if let Some(l) = items(member(msg, "asks"@)) {
        assert(overwrite(overwrite(b.asks, l), l) =~= overwrite(b.asks, l));
    }
    assert(twice.bids =~= once.bids);
    assert(twice.asks =~= once.asks);
}

proof fn lemma_scan_passes(side: Seq<OrderLevel>, is_bid: bool, pu: u64, qu: u64, i: int, k: int)
    requires
        0 <= i <= k < CHANGE_SCAN,
        k < side.len(),
        forall|j: int| i <= j < k ==> !claims(is_bid, pu, qu, #[trigger] side[j].price),
    ensures
        change_from(side, is_bid, pu, qu, i) == change_from(side, is_bid, pu, qu, k),
    decreases k - i,
{
    if i < k {
        lemma_scan_passes(side, is_bid, pu, qu, i + 1, k);
    }
}

/// A removal (quantity zero) of a price held at slot `k` empties that slot and
/// changes no other, where `k` lies within the scan window and every slot
/// before it holds a price that ranks ahead of the removed one.
pub proof fn lemma_removal_clears_slot(side: Seq<OrderLevel>, is_bid: bool, pu: u64, k: int)
    requires
        side.len() == BOOK_DEPTH,
        0 <= k < CHANGE_SCAN,
        pu > 0,
        side[k].price == pu,
        forall|j: int| 0 <= j < k ==> ranks_ahead(is_bid, #[trigger] side[j].price, pu),
    ensures
        change_side(side, is_bid, pu, 0) == side.update(k, level(0, 0)),
{
    lemma_scan_passes(side, is_bid, pu, 0, 0, k);
}

/// A bid change whose price is above slot 0's price takes slot 0.
pub proof fn lemma_better_bid_takes_top(side: Seq<OrderLevel>, pu: u64, qu: u64)
    requires
        side.len() == BOOK_DEPTH,
        pu > side[0].price,
    ensures
        change_side(side, true, pu, qu) == side.update(0, level(pu, qu)),
{
}

impl OrderBook {
    /// Parses a depth-feed frame and applies it; text that is not JSON leaves
    /// the book as it was. Returns whether the text parsed.
    pub fn apply_depth_text(&mut self, text: &str) -> (r: bool)
        ensures
            match json_parsed(text@) {
                Some(m) => r && final(self)@ == depth_effect(old(self)@, m),
                None => !r && *final(self) == *old(self),
            },
    {
        match parse_json(text) {
            Some(m) => {
                self.apply_depth_message(&m);
                true
            },
            None => false,
        }
    }
}

} // verus!
