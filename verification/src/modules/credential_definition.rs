//! The credential-definition capability: binding a registered schema to
//! an issuable definition.

use vstd::prelude::*;

use crate::error::Error;
use crate::events::{call_out, AgentEvent, AgentTrace};

verus! {

/// What a credential-definition creation needs: the id of an already
/// registered schema.
#[derive(Debug)]
pub struct CredentialDefinitionCreateOptions {
    pub schema_id: String,
}

/// Mathematical image of [`CredentialDefinitionCreateOptions`].
pub struct CredentialDefinitionCreateOptionsV {
    pub schema_id: Seq<char>,
}

impl View for CredentialDefinitionCreateOptions {
    type V = CredentialDefinitionCreateOptionsV;

    open spec fn view(&self) -> CredentialDefinitionCreateOptionsV {
        CredentialDefinitionCreateOptionsV { schema_id: self.schema_id@ }
    }
}

/// What a credential-definition creation yields.
#[derive(Debug)]
pub struct CredentialDefinitionCreateResponse {
    pub credential_definition_id: String,
}

/// Mathematical image of [`CredentialDefinitionCreateResponse`].
pub struct CredentialDefinitionCreateResponseV {
    pub credential_definition_id: Seq<char>,
}

impl View for CredentialDefinitionCreateResponse {
    type V = CredentialDefinitionCreateResponseV;

    open spec fn view(&self) -> CredentialDefinitionCreateResponseV {
        CredentialDefinitionCreateResponseV {
            credential_definition_id: self.credential_definition_id@,
        }
    }
}

/// The credential-definition capability a backend must support.
/// Duplicate creation for the same schema and configuration is a
/// backend concern: the backend may return an existing definition, and
/// nothing here requires it to error.
pub trait CredentialDefinitionModule: AgentTrace {
    /// Creates a credential definition over a registered schema.
    fn create(&mut self, options: CredentialDefinitionCreateOptions) -> (r: Result<
        CredentialDefinitionCreateResponse,
        Error,
    >)
        ensures
            final(self).calls() == old(self).calls().push(
                AgentEvent::CredentialDefinitionCreate { options: options@, out: call_out(r) },
            ),
    ;
}

} // verus!
