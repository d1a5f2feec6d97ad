//! Client core for driving a remote identity/credential cloud agent:
//! a closed error taxonomy for every HTTP outcome, capability traits
//! that any concrete backend implements, and linear multi-call
//! automations with short-circuit-on-first-failure semantics.

pub mod automations;
pub mod cli;
pub mod error;
pub mod events;
pub mod modules;
pub mod numbers;
pub mod scripted;
pub mod util;
pub mod web;
