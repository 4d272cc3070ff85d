//! A terminal watchlist core: resolves user-typed ticker symbols into
//! provider query identifiers, normalizes raw provider records into
//! canonical quotes, merges fetched quotes into the user's ordered list,
//! and decides when refreshes happen.
//!
//! The core is everything that can be decided from plain values. What
//! cannot — the HTTP round trip, the watchlist file on disk, the
//! background worker's channels, the terminal — lives outside and talks
//! to the core through plain inputs and results.

pub mod api;
pub mod app;
pub mod chars;
pub mod json;
pub mod matching;
pub mod model;
pub mod storage;
