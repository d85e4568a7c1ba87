//! Synchronization engine for a game launcher's shortcut store.
//!
//! The store on disk is an ordered sequence of shortcut records.  A record
//! carrying the sentinel tag is owned by this engine; every other record is
//! foreign and is never modified.  A synchronization pass removes the owned
//! records (when enabled), materializes a fresh record for every remotely
//! enumerated application, and appends those records to the survivors.

pub mod candidates;
pub mod codec;
pub mod store;
pub mod sync;
pub mod text;
pub mod userconf;
