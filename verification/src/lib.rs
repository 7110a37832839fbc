//! A notification-ingestion plugin core for a personal timeline dashboard.
//!
//! External callers push application notifications (a source app id, a title,
//! a body) through an authenticated call; the plugin persists them as timeline
//! events and later serves them back, compressed and human-labelled, for a
//! given time range. An app id is resolved to a display name through a
//! preloaded lookup table, and to an icon file through a tiered fallback
//! chain.

pub mod apps;
pub mod compress;
pub mod decimal;
pub mod events;
pub mod icon;
pub mod ingest;
pub mod plugin;
pub mod store;
pub mod text;
