//! A scripted agent: an in-process implementation of every capability,
//! answering each call with the next response scripted for that
//! operation. It backs tests that need to watch exactly which calls a
//! workflow issues and with which arguments, without any backend.

use vstd::prelude::*;

use crate::error::Error;
use crate::events::{call_out, AgentEvent, AgentTrace};
use crate::modules::connections::{
    Connection, ConnectionCreateInvitationOptions, ConnectionCreateInvitationResponse,
    ConnectionGetAllResponse, ConnectionModule, ConnectionReceiveInvitationOptions,
};
use crate::modules::credential::{CredentialModule, CredentialOfferOptions, CredentialOfferResponse};
use crate::modules::credential_definition::{
    CredentialDefinitionCreateOptions, CredentialDefinitionCreateResponse,
    CredentialDefinitionModule,
};
use crate::modules::proofs::{ProofModule, ProofRequestOptions, ProofRequestResponse};
use crate::modules::schema::{
    Schema, SchemaCreateOptions, SchemaCreateResponse, SchemaGetAllResponse, SchemaModule,
};

verus! {

/// An agent that serves scripted responses instead of reaching a
/// backend.
///
/// Each operation consumes the next response from its own queue, oldest
/// first, and answers `UnreachableEndpoint` when its queue is empty —
/// as a backend that cannot be reached would. Every call is recorded:
/// in the ghost trace that the capability contracts speak of, and in
/// plain request lists that a test can inspect.
pub struct ScriptedAgent {
    /// The ghost trace of every call issued, oldest first.
    pub trace: Ghost<Seq<AgentEvent>>,
    pub connection_responses: Vec<Result<Connection, Error>>,
    pub connection_list_responses: Vec<Result<ConnectionGetAllResponse, Error>>,
    pub create_invitation_responses: Vec<Result<ConnectionCreateInvitationResponse, Error>>,
    pub receive_invitation_responses: Vec<Result<Connection, Error>>,
    pub schema_create_responses: Vec<Result<SchemaCreateResponse, Error>>,
    pub schema_get_responses: Vec<Result<Schema, Error>>,
    pub schema_list_responses: Vec<Result<SchemaGetAllResponse, Error>>,
    pub credential_definition_responses: Vec<Result<CredentialDefinitionCreateResponse, Error>>,
    pub offer_responses: Vec<Result<CredentialOfferResponse, Error>>,
    pub proof_responses: Vec<Result<ProofRequestResponse, Error>>,
    pub connection_ids_requested: Vec<String>,
    pub create_invitations_received: Vec<ConnectionCreateInvitationOptions>,
    pub receive_invitations_received: Vec<ConnectionReceiveInvitationOptions>,
    pub schema_creates_received: Vec<SchemaCreateOptions>,
    pub schema_ids_requested: Vec<String>,
    pub credential_definitions_received: Vec<CredentialDefinitionCreateOptions>,
    pub offers_received: Vec<CredentialOfferOptions>,
    pub proof_requests_received: Vec<ProofRequestOptions>,
}

impl ScriptedAgent {
    /// An agent with no scripted responses and nothing recorded.
    pub fn new() -> (r: ScriptedAgent)
        ensures
            r.calls() == Seq::<AgentEvent>::empty(),
    {
        ScriptedAgent {
            trace: Ghost(Seq::empty()),
            connection_responses: Vec::new(),
            connection_list_responses: Vec::new(),
            create_invitation_responses: Vec::new(),
            receive_invitation_responses: Vec::new(),
            schema_create_responses: Vec::new(),
            schema_get_responses: Vec::new(),
            schema_list_responses: Vec::new(),
            credential_definition_responses: Vec::new(),
            offer_responses: Vec::new(),
            proof_responses: Vec::new(),
            connection_ids_requested: Vec::new(),
            create_invitations_received: Vec::new(),
            receive_invitations_received: Vec::new(),
            schema_creates_received: Vec::new(),
            schema_ids_requested: Vec::new(),
            credential_definitions_received: Vec::new(),
            offers_received: Vec::new(),
            proof_requests_received: Vec::new(),
        }
    }
}

impl AgentTrace for ScriptedAgent {
    open spec fn calls(&self) -> Seq<AgentEvent> {
        self.trace@
    }
}

impl ConnectionModule for ScriptedAgent {
    fn get_all(&mut self) -> (r: Result<ConnectionGetAllResponse, Error>) {
        let response = if self.connection_list_responses.len() > 0 {
            self.connection_list_responses.remove(0)
        } else {
            Err(Error::UnreachableEndpoint)
        };
        self.trace = Ghost(
            self.trace@.push(AgentEvent::ConnectionGetAll { out: call_out(response) }),
        );
        response
    }

    fn get_by_id(&mut self, id: String) -> (r: Result<Connection, Error>) {
        self.connection_ids_requested.push(id.clone());
        let response = if self.connection_responses.len() > 0 {
            self.connection_responses.remove(0)
        } else {
            Err(Error::UnreachableEndpoint)
        };
        self.trace = Ghost(
            self.trace@.push(AgentEvent::ConnectionGetById { id: id@, out: call_out(response) }),
        );
        response
    }

    fn create_invitation(&mut self, options: ConnectionCreateInvitationOptions) -> (r: Result<
        ConnectionCreateInvitationResponse,
        Error,
    >) {
        let response = if self.create_invitation_responses.len() > 0 {
            self.create_invitation_responses.remove(0)
        } else {
            Err(Error::UnreachableEndpoint)
        };
        self.trace = Ghost(
            self.trace@.push(
                AgentEvent::ConnectionCreateInvitation {
                    options: options@,
                    out: call_out(response),
                },
            ),
        );
        self.create_invitations_received.push(options);
        response
    }

    fn receive_invitation(&mut self, invitation: ConnectionReceiveInvitationOptions) -> (r: Result<
        Connection,
        Error,
    >) {
        let response = if self.receive_invitation_responses.len() > 0 {
            self.receive_invitation_responses.remove(0)
        } else {
            Err(Error::UnreachableEndpoint)
        };
        self.trace = Ghost(
            self.trace@.push(
                AgentEvent::ConnectionReceiveInvitation {
                    invitation: invitation@,
                    out: call_out(response),
                },
            ),
        );
        self.receive_invitations_received.push(invitation);
        response
    }
}

impl SchemaModule for ScriptedAgent {
    fn create(&mut self, options: SchemaCreateOptions) -> (r: Result<SchemaCreateResponse, Error>) {
        if options.attributes.len() == 0 {
            return Err(Error::RequiredAttributes);
        }
        let response = if self.schema_create_responses.len() > 0 {
            self.schema_create_responses.remove(0)
        } else {
            Err(Error::UnreachableEndpoint)
        };
        self.trace = Ghost(
            self.trace@.push(AgentEvent::SchemaCreate { options: options@, out: call_out(response) }),
        );
        self.schema_creates_received.push(options);
        response
    }

    fn get_by_id(&mut self, id: String) -> (r: Result<Schema, Error>) {
        self.schema_ids_requested.push(id.clone());
        let response = if self.schema_get_responses.len() > 0 {
            self.schema_get_responses.remove(0)
        } else {
            Err(Error::UnreachableEndpoint)
        };
        self.trace = Ghost(
            self.trace@.push(AgentEvent::SchemaGetById { id: id@, out: call_out(response) }),
        );
        response
    }

    fn get_all(&mut self) -> (r: Result<SchemaGetAllResponse, Error>) {
        let response = if self.schema_list_responses.len() > 0 {
            self.schema_list_responses.remove(0)
        } else {
            Err(Error::UnreachableEndpoint)
        };
        self.trace = Ghost(
            self.trace@.push(AgentEvent::SchemaGetAll { out: call_out(response) }),
        );
        response
    }
}

impl CredentialDefinitionModule for ScriptedAgent {
    fn create(&mut self, options: CredentialDefinitionCreateOptions) -> (r: Result<
        CredentialDefinitionCreateResponse,
        Error,
    >) {
        let response = if self.credential_definition_responses.len() > 0 {
            self.credential_definition_responses.remove(0)
        } else {
            Err(Error::UnreachableEndpoint)
        };
        self.trace = Ghost(
            self.trace@.push(
                AgentEvent::CredentialDefinitionCreate {
                    options: options@,
                    out: call_out(response),
                },
            ),
        );
        self.credential_definitions_received.push(options);
        response
    }
}

impl CredentialModule for ScriptedAgent {
    fn send_offer(&mut self, options: CredentialOfferOptions) -> (r: Result<
        CredentialOfferResponse,
        Error,
    >) {
        let response = if self.offer_responses.len() > 0 {
            self.offer_responses.remove(0)
        } else {
            Err(Error::UnreachableEndpoint)
        };
        self.trace = Ghost(
            self.trace@.push(
                AgentEvent::CredentialSendOffer { options: options@, out: call_out(response) },
            ),
        );
        self.offers_received.push(options);
        response
    }
}

impl ProofModule for ScriptedAgent {
    fn send_request(&mut self, options: ProofRequestOptions) -> (r: Result<
        ProofRequestResponse,
        Error,
    >) {
        let response = if self.proof_responses.len() > 0 {
            self.proof_responses.remove(0)
        } else {
            Err(Error::UnreachableEndpoint)
        };
        self.trace = Ghost(
            self.trace@.push(
                AgentEvent::ProofSendRequest { options: options@, out: call_out(response) },
            ),
        );
        self.proof_requests_received.push(options);
        response
    }
}

} // verus!
