//! The proof capability: requesting a presentation of attributes and
//! predicates from a connection.

use vstd::prelude::*;

use crate::error::Error;
use crate::events::{call_out, AgentEvent, AgentTrace};

verus! {

/// A predicate as the caller supplies it: subject name, comparator and
/// threshold, all still text. The threshold must parse as an integer
/// before a request is sent; see [`crate::cli::proofs::parse_predicates`].
#[derive(Debug)]
pub struct Predicate(pub String, pub String, pub String);

impl View for Predicate {
    type V = (Seq<char>, Seq<char>, Seq<char>);

    open spec fn view(&self) -> (Seq<char>, Seq<char>, Seq<char>) {
        (self.0@, self.1@, self.2@)
    }
}

impl DeepView for Predicate {
    type V = (Seq<char>, Seq<char>, Seq<char>);

    open spec fn deep_view(&self) -> (Seq<char>, Seq<char>, Seq<char>) {
        self.view()
    }
}

/// A proof request: a named request against one connection, with the
/// attribute names to disclose and the predicates to satisfy, each
/// predicate carrying its parsed integer threshold.
#[derive(Debug)]
pub struct ProofRequestOptions {
    pub connection_id: String,
    pub name: String,
    pub attributes: Vec<String>,
    pub predicates: Vec<(String, String, i32)>,
}

/// Mathematical image of [`ProofRequestOptions`].
pub struct ProofRequestOptionsV {
    pub connection_id: Seq<char>,
    pub name: Seq<char>,
    pub attributes: Seq<Seq<char>>,
    pub predicates: Seq<(Seq<char>, Seq<char>, i32)>,
}

impl View for ProofRequestOptions {
    type V = ProofRequestOptionsV;

    open spec fn view(&self) -> ProofRequestOptionsV {
        ProofRequestOptionsV {
            connection_id: self.connection_id@,
            name: self.name@,
            attributes: self.attributes.deep_view(),
            predicates: self.predicates.deep_view(),
        }
    }
}

/// What sending a proof request yields: the presentation-exchange
/// identifier under which the backend tracks it.
#[derive(Debug)]
pub struct ProofRequestResponse {
    pub presentation_exchange_id: String,
}

/// Mathematical image of [`ProofRequestResponse`].
pub struct ProofRequestResponseV {
    pub presentation_exchange_id: Seq<char>,
}

impl View for ProofRequestResponse {
    type V = ProofRequestResponseV;

    open spec fn view(&self) -> ProofRequestResponseV {
        ProofRequestResponseV { presentation_exchange_id: self.presentation_exchange_id@ }
    }
}

/// The proof capability a backend must support.
pub trait ProofModule: AgentTrace {
    /// Sends a proof request.
    fn send_request(&mut self, options: ProofRequestOptions) -> (r: Result<
        ProofRequestResponse,
        Error,
    >)
        ensures
            final(self).calls() == old(self).calls().push(
                AgentEvent::ProofSendRequest { options: options@, out: call_out(r) },
            ),
    ;
}

} // verus!
