//! Transport: resolving one completed (or failed) HTTP exchange into a
//! decoded payload or exactly one classified error.
//!
//! The I/O half of the transport — building and sending the request,
//! reading the status, body and decode attempt — is performed by the
//! caller; this module owns the classification table that every
//! backend-facing implementation must reproduce.

use vstd::prelude::*;

use crate::error::{with_err_view, Error, ErrorV};

verus! {

/// The observable outcome of one HTTP request.
///
/// `Completed` carries the numeric status, the raw body text and the
/// result of attempting to decode the body as the payload type the
/// caller expects (`None` when the body did not match that shape).
/// `Failed` means no HTTP exchange completed at all.
pub enum HttpExchange<T> {
    Completed { status: u16, body: String, decoded: Option<T> },
    Failed,
}

/// The classification table: what one completed exchange with the given
/// status, body text and decode outcome must resolve to.
pub open spec fn transport_verdict<T>(status: u16, body: Seq<char>, decoded: Option<T>) -> Result<
    T,
    ErrorV,
> {
    if 200 <= status && status <= 299 {
        match decoded {
            Some(v) => Ok(v),
            None => Err(ErrorV::UnableToParseResponse),
        }
    } else if status == 400 {
        Err(ErrorV::BadRequest(body))
    } else if status == 401 {
        Err(ErrorV::AuthorizationFailed)
    } else if status == 404 {
        Err(ErrorV::UrlDoesNotExist)
    } else if 500 <= status && status <= 599 {
        Err(ErrorV::InternalServerError(status, body))
    } else {
        Err(ErrorV::UnknownResponseStatusCode(body))
    }
}

/// Resolve one HTTP exchange to a decoded payload or one classified
/// error, following the status table:
/// 2xx yields the decoded value, or `UnableToParseResponse` when the
/// body did not decode; 400 surfaces the body verbatim as `BadRequest`;
/// 401 is `AuthorizationFailed`; 404 is `UrlDoesNotExist`; 5xx is
/// `InternalServerError` carrying the status and the body unchanged;
/// every other status is `UnknownResponseStatusCode` carrying the body;
/// an exchange that never completed is `UnreachableEndpoint`.
pub fn resolve_exchange<T>(exchange: HttpExchange<T>) -> (r: Result<T, Error>)
    ensures
        match exchange {
            HttpExchange::Completed { status, body, decoded } => with_err_view(r)
                == transport_verdict(status, body@, decoded),
            HttpExchange::Failed => r == Err::<T, Error>(Error::UnreachableEndpoint),
        },
{
    match exchange {
        HttpExchange::Completed { status, body, decoded } => {
            if 200 <= status && status <= 299 {
                match decoded {
                    Some(v) => Ok(v),
                    None => Err(Error::UnableToParseResponse),
                }
            } else if status == 400 {
                Err(Error::BadRequest(body))
            } else if status == 401 {
                Err(Error::AuthorizationFailed)
            } else if status == 404 {
                Err(Error::UrlDoesNotExist)
            } else if 500 <= status && status <= 599 {
                Err(Error::InternalServerError(status, body))
            } else {
                Err(Error::UnknownResponseStatusCode(body))
            }
        },
        HttpExchange::Failed => Err(Error::UnreachableEndpoint),
    }
}

} // verus!
