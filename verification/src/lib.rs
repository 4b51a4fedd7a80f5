//! Coordination core for a resumable-download and import tool: canonical
//! download-URL construction, a bounded-retry fetch state machine with
//! integer progress tracking, suffix-based import routing with its store
//! statements, the single-owner session state advanced by lifecycle events
//! and key intents, and a bounded tabular rendering of query results.
pub mod app;
pub mod fetch;
pub mod import;
pub mod network;
pub mod table;
pub mod text;
