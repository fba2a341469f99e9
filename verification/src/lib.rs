//! Bridge from a relational row model to a declarative policy engine.
//!
//! The crate builds policy-engine class descriptors for relational row
//! types on demand, projects concrete rows into the engine's value
//! representation, drives authorization decisions under a strict
//! "types before rules" load-order protocol, and generates the SQL text
//! that wires per-row decisions into row-level security.
//!
//! One limit of the oracle binding: the policy engine identifies row
//! instances by a single shared host type, so attribute access resolves
//! through the row class registered most recently. Policies whose rules
//! distinguish several row classes under one oracle instance are outside
//! the binding's support; deployments with one row class per oracle
//! instance behave as specified.

pub mod catalog;
pub mod engine;
pub mod errors;
pub mod oracle;
pub mod registry;
pub mod rules;
pub mod sqlgen;
pub mod timestamp;
pub mod values;
