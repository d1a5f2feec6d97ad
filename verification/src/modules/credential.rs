//! The credential capability: offering a credential to a connection.

use vstd::prelude::*;

use crate::error::Error;
use crate::events::{call_out, AgentEvent, AgentTrace};

verus! {

/// A credential offer: a connection, a credential definition, and the
/// attribute names and values, correlated by position — the key at an
/// index names the value at that index.
#[derive(Debug)]
pub struct CredentialOfferOptions {
    pub keys: Vec<String>,
    pub values: Vec<String>,
    pub connection_id: String,
    pub cred_def_id: String,
}

/// Mathematical image of [`CredentialOfferOptions`].
pub struct CredentialOfferOptionsV {
    pub keys: Seq<Seq<char>>,
    pub values: Seq<Seq<char>>,
    pub connection_id: Seq<char>,
    pub cred_def_id: Seq<char>,
}

impl View for CredentialOfferOptions {
    type V = CredentialOfferOptionsV;

    open spec fn view(&self) -> CredentialOfferOptionsV {
        CredentialOfferOptionsV {
            keys: self.keys.deep_view(),
            values: self.values.deep_view(),
            connection_id: self.connection_id@,
            cred_def_id: self.cred_def_id@,
        }
    }
}

/// What sending an offer yields: the exchange identifier under which
/// the backend tracks it.
#[derive(Debug)]
pub struct CredentialOfferResponse {
    pub credential_exchange_id: String,
}

/// Mathematical image of [`CredentialOfferResponse`].
pub struct CredentialOfferResponseV {
    pub credential_exchange_id: Seq<char>,
}

impl View for CredentialOfferResponse {
    type V = CredentialOfferResponseV;

    open spec fn view(&self) -> CredentialOfferResponseV {
        CredentialOfferResponseV { credential_exchange_id: self.credential_exchange_id@ }
    }
}

/// The credential capability a backend must support.
pub trait CredentialModule: AgentTrace {
    /// Sends a credential offer. Every declared key must have a value:
    /// the two lists have the same length.
    fn send_offer(&mut self, options: CredentialOfferOptions) -> (r: Result<
        CredentialOfferResponse,
        Error,
    >)
        requires
            options.keys@.len() == options.values@.len(),
        ensures
            final(self).calls() == old(self).calls().push(
                AgentEvent::CredentialSendOffer { options: options@, out: call_out(r) },
            ),
    ;
}

} // verus!
