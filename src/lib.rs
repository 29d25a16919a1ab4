//! Podcast feed watcher: normalizes a parsed feed into a comparable snapshot,
//! detects the one change worth announcing between two snapshots, and renders
//! the announcement text.

pub mod config;
pub mod detect;
pub mod feed;
pub mod monitor;
pub mod notification;
