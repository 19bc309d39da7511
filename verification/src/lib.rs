//! A user-management service layer: create, read, update and delete
//! operations on user records, with transactional coupling between user
//! creation and an optional profile-picture upload, and a small
//! caller-facing error taxonomy.
//!
//! The store itself is modelled in memory (`store`); the service
//! (`service`) adds the transaction semantics: every mutating operation
//! either commits all of its effects or leaves the store untouched.
//! Store failures are injected as explicit outcome parameters, since a
//! real store can fail on any round trip. The `decision` module holds
//! the outcome-to-error mapping that an I/O-bound caller applies to raw
//! repository outcomes.

pub mod data;
pub mod decision;
pub mod error;
pub mod laws;
pub mod service;
pub mod store;
