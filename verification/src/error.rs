//! The closed error taxonomy surfaced to every caller.
//!
//! Transport classifies each HTTP outcome into exactly one of these
//! variants; the client-side validation errors are raised before any
//! network call is made.

use vstd::prelude::*;

verus! {

/// Every error a capability call, a transport exchange or an automation
/// can surface. No other error value leaves this crate.
#[derive(Debug, PartialEq, Eq)]
pub enum Error {
    /// No HTTP exchange completed at all (connection refused, DNS
    /// failure, timeout with no response).
    UnreachableEndpoint,
    /// A 2xx response body did not match the expected shape.
    UnableToParseResponse,
    /// HTTP 401.
    AuthorizationFailed,
    /// HTTP 404.
    UrlDoesNotExist,
    /// HTTP 5xx: the numeric status and the body text, both unchanged.
    InternalServerError(u16, String),
    /// Any other status not otherwise classified, carrying the body text.
    UnknownResponseStatusCode(String),
    /// HTTP 400: the raw response body, surfaced verbatim so callers can
    /// match on backend-specific messages.
    BadRequest(String),
    /// A schema creation was attempted with an empty attribute list.
    RequiredAttributes,
    /// A proof predicate threshold did not parse as an integer: the
    /// predicate subject name and the offending value.
    PredicateValueNonNumber(String, String),
    /// An automation precondition failed: the connection is not in a
    /// ready state.
    ConnectionNotReady,
    /// A command was invoked without a subcommand.
    NoSubcommandSupplied,
}

/// Mathematical image of [`Error`]: the same variants over `Seq<char>`.
pub enum ErrorV {
    UnreachableEndpoint,
    UnableToParseResponse,
    AuthorizationFailed,
    UrlDoesNotExist,
    InternalServerError(u16, Seq<char>),
    UnknownResponseStatusCode(Seq<char>),
    BadRequest(Seq<char>),
    RequiredAttributes,
    PredicateValueNonNumber(Seq<char>, Seq<char>),
    ConnectionNotReady,
    NoSubcommandSupplied,
}

impl View for Error {
    type V = ErrorV;

    open spec fn view(&self) -> ErrorV {
        match self {
            Error::UnreachableEndpoint => ErrorV::UnreachableEndpoint,
            Error::UnableToParseResponse => ErrorV::UnableToParseResponse,
            Error::AuthorizationFailed => ErrorV::AuthorizationFailed,
            Error::UrlDoesNotExist => ErrorV::UrlDoesNotExist,
            Error::InternalServerError(status, body) => ErrorV::InternalServerError(
                *status,
                body@,
            ),
            Error::UnknownResponseStatusCode(body) => ErrorV::UnknownResponseStatusCode(body@),
            Error::BadRequest(body) => ErrorV::BadRequest(body@),
            Error::RequiredAttributes => ErrorV::RequiredAttributes,
            Error::PredicateValueNonNumber(name, value) => ErrorV::PredicateValueNonNumber(
                name@,
                value@,
            ),
            Error::ConnectionNotReady => ErrorV::ConnectionNotReady,
            Error::NoSubcommandSupplied => ErrorV::NoSubcommandSupplied,
        }
    }
}

/// The error image of a result: the payload untouched, the error
/// viewed.
pub open spec fn with_err_view<T>(r: Result<T, Error>) -> Result<T, ErrorV> {
    match r {
        Ok(v) => Ok(v),
        Err(e) => Err(e@),
    }
}

} // verus!
