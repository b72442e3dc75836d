//! Inspection of a single filesystem path: classify it by extension,
//! format its size, and produce a short human-readable summary.
//!
//! The library holds the decision logic only.  Reading metadata, file
//! contents and directory listings is the caller's job; the caller hands
//! the results in as plain values and this crate derives everything else.

pub mod analyze;
pub mod casefold;
pub mod classify;
pub mod pathname;
pub mod record;
pub mod sizefmt;
pub mod strutil;

pub use analyze::AnalysisPlan;
pub use record::{FileAttributes, FileInfo};
