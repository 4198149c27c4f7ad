//! Verified core of a temporary-storage cleaner.
//!
//! The library models a snapshot of a directory tree together with the
//! outcome of each filesystem operation (metadata read, directory listing,
//! removal), and verifies the recursive cleaning engine over that model:
//! the age filter, the "once eligible, recurse unconditionally" cascade,
//! per-entry fault isolation, and bottom-up statistics aggregation.

pub mod age;
pub mod config;
pub mod fstree;
pub mod laws;
pub mod report;
pub mod stats;
pub mod task;
pub mod walker;
