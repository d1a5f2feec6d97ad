//! The connection capability: observing peer relationships and
//! exchanging invitations.

use vstd::prelude::*;

use crate::error::Error;
use crate::events::{call_out, AgentEvent, AgentTrace};

verus! {

/// serde_json's JSON value type, declared so that an invitation payload
/// can be carried through this crate opaquely. Nothing here reads or
/// builds such a value; it travels between the backend and the caller
/// unchanged.
#[verifier::external_type_specification]
#[verifier::external_body]
pub struct ExValue(serde_json::Value);

/// A peer relationship as the backend reports it. The backend owns
/// every state transition; this client only observes.
#[derive(Debug)]
pub struct Connection {
    pub their_role: String,
    pub created_at: String,
    pub my_did: Option<String>,
    pub connection_id: String,
    pub their_did: Option<String>,
    pub invitation_key: String,
    pub state: String,
    pub routing_state: String,
    pub accept: String,
    pub their_label: Option<String>,
    pub invitation_mode: String,
    pub rfc23_state: String,
    pub updated_at: String,
    pub alias: Option<String>,
    pub request_id: Option<String>,
    pub invitation_msg_id: Option<String>,
}

/// Mathematical image of [`Connection`].
pub struct ConnectionV {
    pub their_role: Seq<char>,
    pub created_at: Seq<char>,
    pub my_did: Option<Seq<char>>,
    pub connection_id: Seq<char>,
    pub their_did: Option<Seq<char>>,
    pub invitation_key: Seq<char>,
    pub state: Seq<char>,
    pub routing_state: Seq<char>,
    pub accept: Seq<char>,
    pub their_label: Option<Seq<char>>,
    pub invitation_mode: Seq<char>,
    pub rfc23_state: Seq<char>,
    pub updated_at: Seq<char>,
    pub alias: Option<Seq<char>>,
    pub request_id: Option<Seq<char>>,
    pub invitation_msg_id: Option<Seq<char>>,
}

impl View for Connection {
    type V = ConnectionV;

    open spec fn view(&self) -> ConnectionV {
        ConnectionV {
            their_role: self.their_role@,
            created_at: self.created_at@,
            my_did: self.my_did.deep_view(),
            connection_id: self.connection_id@,
            their_did: self.their_did.deep_view(),
            invitation_key: self.invitation_key@,
            state: self.state@,
            routing_state: self.routing_state@,
            accept: self.accept@,
            their_label: self.their_label.deep_view(),
            invitation_mode: self.invitation_mode@,
            rfc23_state: self.rfc23_state@,
            updated_at: self.updated_at@,
            alias: self.alias.deep_view(),
            request_id: self.request_id.deep_view(),
            invitation_msg_id: self.invitation_msg_id.deep_view(),
        }
    }
}

impl DeepView for Connection {
    type V = ConnectionV;

    open spec fn deep_view(&self) -> ConnectionV {
        self.view()
    }
}

/// The two states in which a connection can take part in an issuance
/// workflow. Every other state — and any unrecognized string — is not
/// ready.
pub open spec fn is_ready_state(state: Seq<char>) -> bool {
    state == "active"@ || state == "response"@
}

impl Connection {
    /// Whether this connection is ready for issuance: its state is
    /// exactly `active` or `response`.
    pub fn is_ready(&self) -> (r: bool)
        ensures
            r == is_ready_state(self.state@),
    {
        let active: String = String::from_str("active");
        let response: String = String::from_str("response");
        self.state == active || self.state == response
    }
}

/// Response listing every connection the backend knows.
#[derive(Debug)]
pub struct ConnectionGetAllResponse {
    pub results: Vec<Connection>,
}

/// Mathematical image of [`ConnectionGetAllResponse`].
pub struct ConnectionGetAllResponseV {
    pub results: Seq<ConnectionV>,
}

impl View for ConnectionGetAllResponse {
    type V = ConnectionGetAllResponseV;

    open spec fn view(&self) -> ConnectionGetAllResponseV {
        ConnectionGetAllResponseV { results: self.results.deep_view() }
    }
}

/// Flags and alias for creating an invitation.
#[derive(Debug)]
pub struct ConnectionCreateInvitationOptions {
    pub auto_accept: bool,
    pub qr: bool,
    pub toolbox: bool,
    pub multi_use: bool,
    pub alias: Option<String>,
}

/// Mathematical image of [`ConnectionCreateInvitationOptions`].
pub struct ConnectionCreateInvitationOptionsV {
    pub auto_accept: bool,
    pub qr: bool,
    pub toolbox: bool,
    pub multi_use: bool,
    pub alias: Option<Seq<char>>,
}

impl View for ConnectionCreateInvitationOptions {
    type V = ConnectionCreateInvitationOptionsV;

    open spec fn view(&self) -> ConnectionCreateInvitationOptionsV {
        ConnectionCreateInvitationOptionsV {
            auto_accept: self.auto_accept,
            qr: self.qr,
            toolbox: self.toolbox,
            multi_use: self.multi_use,
            alias: self.alias.deep_view(),
        }
    }
}

/// What creating an invitation yields: the new connection id, the raw
/// invitation payload and a shareable URL.
#[derive(Debug)]
pub struct ConnectionCreateInvitationResponse {
    pub connection_id: String,
    pub invitation: serde_json::Value,
    pub invitation_url: String,
    pub alias: Option<String>,
}

/// Mathematical image of [`ConnectionCreateInvitationResponse`]. The
/// raw invitation payload is opaque to this crate and is not modeled.
pub struct ConnectionCreateInvitationResponseV {
    pub connection_id: Seq<char>,
    pub invitation_url: Seq<char>,
    pub alias: Option<Seq<char>>,
}

impl View for ConnectionCreateInvitationResponse {
    type V = ConnectionCreateInvitationResponseV;

    open spec fn view(&self) -> ConnectionCreateInvitationResponseV {
        ConnectionCreateInvitationResponseV {
            connection_id: self.connection_id@,
            invitation_url: self.invitation_url@,
            alias: self.alias.deep_view(),
        }
    }
}

/// An invitation as a peer supplied it: only the fields the peer
/// actually provided are populated. The backend — not this client —
/// judges whether the combination is acceptable.
#[derive(Debug)]
pub struct ConnectionReceiveInvitationOptions {
    pub id: Option<String>,
    pub did: Option<String>,
    pub image_url: Option<String>,
    pub label: Option<String>,
    pub recipient_keys: Option<Vec<String>>,
    pub routing_keys: Option<Vec<String>>,
    pub service_endpoint: Option<String>,
}

/// Mathematical image of [`ConnectionReceiveInvitationOptions`].
pub struct ConnectionReceiveInvitationOptionsV {
    pub id: Option<Seq<char>>,
    pub did: Option<Seq<char>>,
    pub image_url: Option<Seq<char>>,
    pub label: Option<Seq<char>>,
    pub recipient_keys: Option<Seq<Seq<char>>>,
    pub routing_keys: Option<Seq<Seq<char>>>,
    pub service_endpoint: Option<Seq<char>>,
}

impl View for ConnectionReceiveInvitationOptions {
    type V = ConnectionReceiveInvitationOptionsV;

    open spec fn view(&self) -> ConnectionReceiveInvitationOptionsV {
        ConnectionReceiveInvitationOptionsV {
            id: self.id.deep_view(),
            did: self.did.deep_view(),
            image_url: self.image_url.deep_view(),
            label: self.label.deep_view(),
            recipient_keys: self.recipient_keys.deep_view(),
            routing_keys: self.routing_keys.deep_view(),
            service_endpoint: self.service_endpoint.deep_view(),
        }
    }
}

/// The connection capability a backend must support. Each operation
/// issues exactly one backend call and records it, with its outcome, in
/// the implementation's call trace.
pub trait ConnectionModule: AgentTrace {
    /// Gets all the connections.
    fn get_all(&mut self) -> (r: Result<ConnectionGetAllResponse, Error>)
        ensures
            final(self).calls() == old(self).calls().push(
                AgentEvent::ConnectionGetAll { out: call_out(r) },
            ),
    ;

    /// Gets a connection by id.
    fn get_by_id(&mut self, id: String) -> (r: Result<Connection, Error>)
        ensures
            final(self).calls() == old(self).calls().push(
                AgentEvent::ConnectionGetById { id: id@, out: call_out(r) },
            ),
    ;

    /// Creates an invitation.
    fn create_invitation(&mut self, options: ConnectionCreateInvitationOptions) -> (r: Result<
        ConnectionCreateInvitationResponse,
        Error,
    >)
        ensures
            final(self).calls() == old(self).calls().push(
                AgentEvent::ConnectionCreateInvitation { options: options@, out: call_out(r) },
            ),
    ;

    /// Receives an invitation supplied by a peer.
    fn receive_invitation(&mut self, invitation: ConnectionReceiveInvitationOptions) -> (r: Result<
        Connection,
        Error,
    >)
        ensures
            final(self).calls() == old(self).calls().push(
                AgentEvent::ConnectionReceiveInvitation {
                    invitation: invitation@,
                    out: call_out(r),
                },
            ),
    ;
}

} // verus!
