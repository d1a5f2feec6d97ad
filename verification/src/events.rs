//! The call trace: a ghost record of every backend call an agent
//! implementation has issued, each with the arguments it sent and the
//! outcome it observed.
//!
//! Contracts over the trace are what lets an automation state, for
//! every backend, exactly which calls it issues, in which order, and
//! how the first failure stops the workflow.

use vstd::prelude::*;

use crate::error::{Error, ErrorV};
use crate::modules::connections::{
    ConnectionCreateInvitationOptionsV, ConnectionCreateInvitationResponseV,
    ConnectionGetAllResponseV, ConnectionReceiveInvitationOptionsV, ConnectionV,
};
use crate::modules::credential::{CredentialOfferOptionsV, CredentialOfferResponseV};
use crate::modules::credential_definition::{
    CredentialDefinitionCreateOptionsV, CredentialDefinitionCreateResponseV,
};
use crate::modules::proofs::{ProofRequestOptionsV, ProofRequestResponseV};
use crate::modules::schema::{
    SchemaCreateOptionsV, SchemaCreateResponseV, SchemaGetAllResponseV, SchemaV,
};

verus! {

/// One backend call: the operation, the arguments it carried, and its
/// outcome — the decoded response, or the one classified error that
/// ended it.
#[allow(inconsistent_fields)]
pub enum AgentEvent {
    ConnectionGetAll { out: Result<ConnectionGetAllResponseV, ErrorV> },
    ConnectionGetById { id: Seq<char>, out: Result<ConnectionV, ErrorV> },
    ConnectionCreateInvitation {
        options: ConnectionCreateInvitationOptionsV,
        out: Result<ConnectionCreateInvitationResponseV, ErrorV>,
    },
    ConnectionReceiveInvitation {
        invitation: ConnectionReceiveInvitationOptionsV,
        out: Result<ConnectionV, ErrorV>,
    },
    SchemaCreate { options: SchemaCreateOptionsV, out: Result<SchemaCreateResponseV, ErrorV> },
    SchemaGetById { id: Seq<char>, out: Result<SchemaV, ErrorV> },
    SchemaGetAll { out: Result<SchemaGetAllResponseV, ErrorV> },
    CredentialDefinitionCreate {
        options: CredentialDefinitionCreateOptionsV,
        out: Result<CredentialDefinitionCreateResponseV, ErrorV>,
    },
    CredentialSendOffer {
        options: CredentialOfferOptionsV,
        out: Result<CredentialOfferResponseV, ErrorV>,
    },
    ProofSendRequest { options: ProofRequestOptionsV, out: Result<ProofRequestResponseV, ErrorV> },
}

/// The image of a capability call's result as it is recorded in an
/// event: the response and the error both viewed.
pub open spec fn call_out<T: View>(r: Result<T, Error>) -> Result<T::V, ErrorV> {
    match r {
        Ok(v) => Ok(v@),
        Err(e) => Err(e@),
    }
}

/// An agent whose backend calls are traced. Every capability trait
/// extends this, so one implementation carries one trace through all
/// the capabilities it supports.
pub trait AgentTrace {
    /// Every backend call this agent has issued, oldest first. The
    /// default records nothing; an implementation proved against the
    /// capability contracts defines the trace itself, since those
    /// contracts make every call extend it.
    open spec fn calls(&self) -> Seq<AgentEvent> {
        Seq::empty()
    }
}

} // verus!
