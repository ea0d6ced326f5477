//! Keeps a document store in sync with the files of a watched directory tree.
//!
//! The library holds the decisions of the change-ingestion pipeline: which
//! changed paths are noise, whether a change creates a record or updates one,
//! which entity kind a new file becomes, and how repository scans and upserts
//! behave. The store, the file watcher and the event loop stay with the caller,
//! which hands plain values in and performs the actions that come back.
pub mod types;
pub mod paths;
pub mod filter;
pub mod file_actions;
pub mod classify;
pub mod models;
pub mod router;
pub mod repo;
pub mod dates;
