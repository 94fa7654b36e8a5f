//! Job admission, queueing, and dispatch for a bounded concurrent downloader.
//!
//! The crate models the core of a background download manager: a submission
//! gate that filters candidate URLs against a deduplication ledger, a FIFO job
//! queue paired with an active set under a configurable concurrency limit, and
//! the completion bookkeeping performed when a download finishes.

pub mod settings;
pub mod strutil;
pub mod queue;
pub mod history;
pub mod urlcheck;
pub mod gate;
pub mod job;
