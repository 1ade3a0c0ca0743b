//! Verified core of a chunked streaming downloader.
//!
//! The library holds the logic of one file transfer: tracking progress
//! against a declared total with clamping, deciding the outcome of a
//! chunk sequence, extracting candidate video sources from an HTML page,
//! and parsing a one-based menu selection. The network and file system
//! sit outside, in an unverified shell that drives these functions.

pub mod outcome;
pub mod progress;
pub mod selection;
pub mod sources;
pub mod transfer;
