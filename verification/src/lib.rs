//! Order-flow-imbalance analysis for a derivatives venue.
//!
//! The library keeps, per symbol, the latest order book and the recent
//! trades of a live feed, derives flow metrics from them, detects stacked
//! imbalances and absorption, and maps what it finds to trading signals, of
//! which it lets one of a kind through per window. Around that it decides
//! what a feed session does next and how the set of sessions follows a
//! watchlist. Every function is verified against its contract; the
//! connection to the venue and to the collaborators is left to the caller.
//!
//! - `decimal`: exact decimals, ratios and products
//! - `text`: equality, search and numerals on text
//! - `data`: books, trades and their stores
//! - `ofi`: flow metrics and the pattern detectors
//! - `signals`: signals and the rule engine
//! - `engine`: the per-symbol analysis engine
//! - `dedup`: the deduplication of signals
//! - `feed`: the messages of the venue
//! - `session`: the life cycle of a feed session
//! - `endpoint`: the address a session connects to
//! - `supervisor`: sessions against the watchlist
//! - `request`: requests for one bounded analysis
//! - `config`: the configuration and its validation

pub mod config;
pub mod data;
pub mod decimal;
pub mod dedup;
pub mod endpoint;
pub mod engine;
pub mod feed;
pub mod ofi;
pub mod request;
pub mod session;
pub mod signals;
pub mod supervisor;
pub mod text;
