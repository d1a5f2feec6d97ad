//! Capability modules: one polymorphic interface per domain concept,
//! with the value records each operation exchanges with the backend.

pub mod connections;
pub mod credential;
pub mod credential_definition;
pub mod proofs;
pub mod schema;
