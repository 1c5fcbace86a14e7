//! Core model of a storage-orchestration control plane: persisted resource
//! specifications carrying an at-most-one in-flight operation record, with
//! deterministic start/commit/clear semantics, a keyed object store, and the
//! pure translation layer between the domain model and the data-plane engine's
//! wire shapes.

pub mod error;
pub mod host;
pub mod ids;
pub mod nexus;
pub mod pool;
pub mod replica;
pub mod server;
pub mod service;
pub mod snapshot;
pub mod store;
pub mod transaction;
pub mod translation;
pub mod volume;
pub mod wire;
