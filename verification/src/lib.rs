//! Persistence adapter for the Litask task-management front-end.
//!
//! The store owns exactly one file, `Litask Data.json`, in the user's
//! documents directory. It offers two operations: save a document (one
//! opaque text blob) to that file, creating the directory on demand, and
//! load it back, substituting a canonical empty document while no file
//! exists yet. The document itself is never parsed or validated here.
//!
//! The host shell performs the actual file reads and writes; this crate
//! resolves the file's location, makes every decision around those reads
//! and writes, and states and proves what the two operations mean for the
//! file on disk.

pub mod paths;
pub mod store;
