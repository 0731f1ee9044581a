//! Market-data state store and feed ingestion logic.
//!
//! The stores hold fixed-point prices and quantities (scale 1e-6) in a fixed
//! layout that several processes share through files; the feed handlers turn
//! exchange messages into store updates and trade events; the link machine
//! decides when a feed connection is retried.

use vstd::prelude::*;

pub mod age;
pub mod depth;
pub mod fixed;
pub mod json;
pub mod layout;
pub mod link;
pub mod retention;
pub mod store;
pub mod top;

pub use age::timestamp_age;
pub use fixed::{parse_fixed, to_fixed, SCALE};
pub use json::{parse_json, Json};
pub use layout::{BOOK_FILE_LEN, BOOK_WORDS, TOP_FILE_LEN, TOP_WORDS};
pub use link::{link_start, link_step, LinkAction, LinkEvent, LinkState, RECONNECT_DELAY_MS};
pub use retention::{is_expired, retention_cutoff, RETENTION_MS};
pub use store::{OrderBook, OrderLevel, TopOfBook, TradeEvent, BOOK_DEPTH};
