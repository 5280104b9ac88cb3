//! A small benchmark harness for a remote key-value store.
//!
//! The crate generates a deterministic synthetic dataset, runs a bulk-set and
//! a bulk-get pass over it, and accounts for the completed sub-operations.
//! The store itself is an outside service; its abstract behaviour is captured
//! by an in-memory model against which the operation logic is verified, while
//! the live passes go through a thin trusted layer around the client library.

pub mod dataset;
pub mod driver;
pub mod harness;
pub mod ops;
pub mod remote;
pub mod store;
pub mod text;
