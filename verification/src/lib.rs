//! A verified core for a small todo-tracking backend.
//!
//! The library models todo items, builds every JSON response body the
//! service returns, and captures the storage-gateway logic (create, read,
//! update, delete against a key-value table) with proved contracts.

pub mod gateway;
pub mod json;
pub mod laws;
pub mod model;
pub mod router;
pub mod store;
