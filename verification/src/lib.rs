//! Verified core of the market offer aggregator: the records served by the
//! HTTP API, the snapshot built from the taker's offer book, the filters and
//! summaries behind the two endpoints, and the decisions of the sync loop.

pub mod config;
pub mod text;
pub mod state;
pub mod api;
pub mod sync;
