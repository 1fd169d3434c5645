//! Keeps a versioned, append-only transaction log for a tabular dataset
//! consistent with out-of-band deletions of its storage objects.
//!
//! Deletion notifications are filtered to the ones that fall under a table
//! root, turned into remove actions, and committed to the table's log as a
//! new, monotonically increasing version under an optimistic-concurrency
//! protocol.

pub mod action;
pub mod commit;
pub mod decode;
pub mod handler;
pub mod notify;
pub mod path;
pub mod table_log;
