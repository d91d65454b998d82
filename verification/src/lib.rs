//! Configuration and statement-state core of a CQL driver adapter.
//!
//! The crate accumulates cluster settings across independent setter calls,
//! keeps a registry of execution profiles, assembles an immutable session
//! plan from a snapshot of the accumulated state, and manages per-statement
//! parameter slots with tri-state (unset / null / value) semantics and
//! copy-on-write mutation of shared prepared statements.

pub mod cass_error;
pub mod cluster;
pub mod exec_profile;
pub mod load_balancing;
pub mod session;
pub mod statement;
pub mod text;
