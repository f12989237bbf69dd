//! Unattended ingestion pipeline for a sample library.
//!
//! Pairs a binary asset file with its JSON metadata sibling, deduplicates by
//! content fingerprint, relocates the binary into a category-structured
//! library tree, and records provenance in a catalog. The decision logic is
//! verified; directory watching, file and catalog I/O live outside the crate
//! and drive the state machines defined here.

pub mod category;
pub mod chars;
pub mod errors;
pub mod fingerprint;
pub mod ingest;
pub mod metadata;
pub mod pairing;
pub mod record;
pub mod retry;
pub mod sanitize;
pub mod watcher;
