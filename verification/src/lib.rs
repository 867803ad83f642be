//! Subscription creation for an RSS/Atom chat bot.
//!
//! The crate verifies the subscription pipeline: URL validation, an atomic
//! unit of work that upserts the chat and the feed, rejects duplicates,
//! enforces the per-chat subscription cap, and inserts the subscription row;
//! and the normalization of a fetched raw feed document into the internal
//! feed model.

pub mod bot;
pub mod db;
pub mod models;
pub mod sync;
