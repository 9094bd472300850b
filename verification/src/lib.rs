//! Daily check-in counter core.
//!
//! A single endpoint is scanned once a day; the library decides whether a
//! visit counts as a new check-in or is a duplicate, and folds each accepted
//! visit into a day-keyed ledger of counters.  The surrounding binary does
//! the HTTP, session-cookie and file plumbing; everything that decides or
//! computes lives here, verified.

pub mod api;
pub mod clock;
pub mod creds;
pub mod data;
