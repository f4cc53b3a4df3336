//! Core of a polling notifier: it watches a remote document database,
//! detects records that appeared since the previous poll, and plans a
//! notification for each new record over the configured delivery channels.
//!
//! The surrounding binary does the actual I/O (HTTP, SMTP, sleeping); this
//! library holds the logic that is worth stating precisely: identity of
//! records, novelty detection, dispatch sequencing, and the poll state
//! carried between cycles.

pub mod page;
pub mod errors;
pub mod config;
pub mod detect;
pub mod dispatch;
pub mod scheduler;
pub mod source;
pub mod template;
pub mod tera_types;
