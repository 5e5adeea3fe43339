//! Verified navigation engine for a local filesystem browser: path
//! resolution, history, asynchronous-load bookkeeping, and the
//! address-field edit/commit protocol, plus the pure helpers that
//! classify and format directory entries.
pub mod address;
pub mod clock;
pub mod entry;
pub mod explorer;
pub mod fmt_num;
pub mod history;
pub mod listing;
pub mod paths;
pub mod platform;
pub mod utils;
