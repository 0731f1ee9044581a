//! The reconnect state machine that each feed connection runs.
//!
//! The caller performs the actions (connect, subscribe, read frames, wait) and
//! reports what happened as events; the machine decides what comes next.

use vstd::prelude::*;
use crate::depth::{depth_effect, is_snapshot};
use crate::json::{items, member, Json};
use crate::store::{book_view_wf, BookView, BOOK_DEPTH};

verus! {

/// The fixed delay between losing a connection and the next attempt.
pub const RECONNECT_DELAY_MS: u64 = 5000;

#[derive(Clone, Copy, PartialEq, Eq, Structural, Debug)]
pub enum LinkState {
    /// No connection since `since_ms`.
    Disconnected { since_ms: u64 },
    /// An attempt to connect is under way.
    Connecting,
    /// Connected; frames are being read.
    Connected,
}

#[derive(Clone, Copy, PartialEq, Eq, Structural, Debug)]
pub enum LinkEvent {
    /// The clock reads `now_ms`.
    Tick { now_ms: u64 },
    /// The connection attempt succeeded.
    ConnectOk,
    /// The connection attempt failed at `now_ms`.
    ConnectFailed { now_ms: u64 },
    /// The stream ended or failed at `now_ms`.
    Closed { now_ms: u64 },
}

#[derive(Clone, Copy, PartialEq, Eq, Structural, Debug)]
pub enum LinkAction {
    /// Wait until the clock reads `until_ms`, then report a tick.
    Wait { until_ms: u64 },
    /// Start a connection attempt.
    Connect,
    /// Send the subscription request, then read frames.
    Subscribe,
    /// Read frames.
    Read,
    /// Nothing to do for this event.
    Idle,
}

/// When the next attempt may start after losing the connection at `since`.
pub open spec fn retry_at(since: u64) -> u64 {
    if since as int + RECONNECT_DELAY_MS as int > u64::MAX { u64::MAX } else { (since + RECONNECT_DELAY_MS) as u64 }
}

/// The next state and action. A lost connection or a failed attempt at time
/// `t` leads to waiting until `t` plus the delay; a tick at or after that time
/// starts the next attempt; a successful attempt leads to reading frames,
/// after a subscription request where the feed needs one (`subscribes`).
/// Events that do not fit the state change nothing.
pub open spec fn link_next(s: LinkState, e: LinkEvent, subscribes: bool) -> (LinkState, LinkAction) {
    match (s, e) {
        (LinkState::Disconnected { since_ms }, LinkEvent::Tick { now_ms }) =>
            if now_ms >= retry_at(since_ms) {
                (LinkState::Connecting, LinkAction::Connect)
            } else {
                (s, LinkAction::Wait { until_ms: retry_at(since_ms) })
            },
        (LinkState::Connecting, LinkEvent::ConnectOk) =>
            (LinkState::Connected, if subscribes { LinkAction::Subscribe } else { LinkAction::Read }),
        (LinkState::Connecting, LinkEvent::ConnectFailed { now_ms }) =>
            (LinkState::Disconnected { since_ms: now_ms }, LinkAction::Wait { until_ms: retry_at(now_ms) }),
        (LinkState::Connecting, LinkEvent::Closed { now_ms }) =>
            (LinkState::Disconnected { since_ms: now_ms }, LinkAction::Wait { until_ms: retry_at(now_ms) }),
        (LinkState::Connected, LinkEvent::Closed { now_ms }) =>
            (LinkState::Disconnected { since_ms: now_ms }, LinkAction::Wait { until_ms: retry_at(now_ms) }),
        (LinkState::Connected, LinkEvent::ConnectFailed { now_ms }) =>
            (LinkState::Disconnected { since_ms: now_ms }, LinkAction::Wait { until_ms: retry_at(now_ms) }),
        _ => (s, LinkAction::Idle),
    }
}

fn next_attempt_at(since: u64) -> (r: u64)
    ensures
        r == retry_at(since),
{
    if since > u64::MAX - RECONNECT_DELAY_MS {
        u64::MAX
    } else {
        since + RECONNECT_DELAY_MS
    }
}

/// The first state and action: an attempt to connect right away.
pub fn link_start() -> (r: (LinkState, LinkAction))
    ensures
        r == (LinkState::Connecting, LinkAction::Connect),
{
    (LinkState::Connecting, LinkAction::Connect)
}

/// One step of the machine: the next state and the action to perform.
pub fn link_step(s: LinkState, e: LinkEvent, subscribes: bool) -> (r: (LinkState, LinkAction))
    ensures
        r == link_next(s, e, subscribes),
{
    match (s, e) {
        (LinkState::Disconnected { since_ms }, LinkEvent::Tick { now_ms }) => {
            let at = next_attempt_at(since_ms);
            if now_ms >= at {
                (LinkState::Connecting, LinkAction::Connect)
            } else {
                (s, LinkAction::Wait { until_ms: at })
            }
        },
        (LinkState::Connecting, LinkEvent::ConnectOk) =>
            (LinkState::Connected, if subscribes { LinkAction::Subscribe } else { LinkAction::Read }),
        (LinkState::Connecting, LinkEvent::ConnectFailed { now_ms })
        | (LinkState::Connecting, LinkEvent::Closed { now_ms })
        | (LinkState::Connected, LinkEvent::Closed { now_ms })
        | (LinkState::Connected, LinkEvent::ConnectFailed { now_ms }) =>
            (LinkState::Disconnected { since_ms: now_ms }, LinkAction::Wait { until_ms: next_attempt_at(now_ms) }),
        _ => (s, LinkAction::Idle),
    }
}

/// A connection that closes at `closed_at` leaves the machine disconnected
/// since that moment, waiting for the delay; and while disconnected since a
/// moment `since`, every event either keeps it so, without an attempt, or
/// starts an attempt on a tick no sooner than `since` plus the delay
/// (`retry_at`, which saturates at the largest time).
pub proof fn lemma_reconnect_waits(closed_at: u64, since: u64, e: LinkEvent, subscribes: bool)
    ensures
        link_next(LinkState::Connected, LinkEvent::Closed { now_ms: closed_at }, subscribes)
            == (LinkState::Disconnected { since_ms: closed_at }, LinkAction::Wait { until_ms: retry_at(closed_at) }),
        ({
            let (s1, a1) = link_next(LinkState::Disconnected { since_ms: since }, e, subscribes);
            ||| (s1 == LinkState::Disconnected { since_ms: since } && a1 != LinkAction::Connect)
            ||| (a1 == LinkAction::Connect && s1 == LinkState::Connecting && e is Tick
                && e->Tick_now_ms >= retry_at(since))
        }),
{
}

/// A depth connection that closes at `closed_at` makes no new attempt before
/// `closed_at` plus the delay, and the machine holds no store, so the first
/// frame after reconnecting applies to the book `b` as it stood at the close:
/// after a snapshot message, every slot that the message does not list keeps
/// its level from `b`.
pub proof fn lemma_reconnect_resumes_book(b: BookView, closed_at: u64, e: LinkEvent, msg: Json, i: int)
    requires
        book_view_wf(b),
        is_snapshot(msg),
        0 <= i < BOOK_DEPTH,
    ensures
        link_next(LinkState::Connected, LinkEvent::Closed { now_ms: closed_at }, true)
            == (LinkState::Disconnected { since_ms: closed_at }, LinkAction::Wait { until_ms: retry_at(closed_at) }),
        link_next(LinkState::Disconnected { since_ms: closed_at }, e, true).1 == LinkAction::Connect
            ==> e is Tick && e->Tick_now_ms >= retry_at(closed_at),
        match items(member(msg, "bids"@)) {
            Some(l) => i >= l.len() ==> depth_effect(b, msg).bids[i] == b.bids[i],
            None => depth_effect(b, msg).bids[i] == b.bids[i],
        },
        match items(member(msg, "asks"@)) {
            Some(l) => i >= l.len() ==> depth_effect(b, msg).asks[i] == b.asks[i],
            None => depth_effect(b, msg).asks[i] == b.asks[i],
        },
{
    lemma_reconnect_waits(closed_at, closed_at, e, true);
}

} // verus!
