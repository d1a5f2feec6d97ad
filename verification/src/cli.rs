//! Subcommand dispatch: the option shapes the command line supplies and
//! the validated dispatch of each subcommand onto a capability.

pub mod proofs;
pub mod schema;
