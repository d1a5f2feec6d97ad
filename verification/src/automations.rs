//! Automations: fixed-order multi-call workflows composed from
//! capability operations, short-circuiting on the first failure and
//! performing no rollback of stages already completed on the backend.

pub mod create_credential_definition;
pub mod credential_offer;
