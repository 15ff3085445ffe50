//! Verified core of a paginated-gallery crawler and downloader.
//!
//! The library holds the logic of the pipeline: pagination-aware link
//! discovery, per-item resolution of a preview versus original-resolution
//! asset URL, the bounded-retry download state machine, output-path
//! computation, and run-summary accounting.  Network and file I/O live in
//! the surrounding shell, which feeds plain values (page text, HTTP status
//! codes, file-existence flags) into the functions here and performs the
//! actions their results call for.

pub mod config;
pub mod dom;
pub mod executor;
pub mod gallery;
pub mod resolve;
pub mod summary;
pub mod text;
pub mod urls;
