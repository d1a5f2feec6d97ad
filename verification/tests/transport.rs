//! The transport classification table, status by status.

use siera::error::Error;
use siera::web::{resolve_exchange, HttpExchange};

fn completed(status: u16, body: &str, decoded: Option<i64>) -> HttpExchange<i64> {
    HttpExchange::Completed { status, body: body.to_string(), decoded }
}

#[test]
fn success_returns_decoded_value() {
    let r = resolve_exchange(completed(200, "{\"n\":7}", Some(7)));
    assert_eq!(r, Ok(7));
}

#[test]
fn every_2xx_status_returns_decoded_value() {
    for status in 200..=299u16 {
        let r = resolve_exchange(completed(status, "body", Some(42)));
        assert_eq!(r, Ok(42));
    }
}

#[test]
fn every_2xx_status_with_malformed_body_is_unable_to_parse() {
    for status in 200..=299u16 {
        let r = resolve_exchange(completed(status, "not the expected shape", None));
        assert_eq!(r, Err(Error::UnableToParseResponse));
    }
}

#[test]
fn status_400_surfaces_body_verbatim() {
    let r = resolve_exchange(completed(400, "malformed credential attributes", None));
    assert_eq!(
        r,
        Err(Error::BadRequest("malformed credential attributes".to_string()))
    );
}

#[test]
fn status_401_is_authorization_failed() {
    let r = resolve_exchange(completed(401, "ignored body", None));
    assert_eq!(r, Err(Error::AuthorizationFailed));
}

#[test]
fn status_404_is_url_does_not_exist() {
    let r = resolve_exchange(completed(404, "ignored body", None));
    assert_eq!(r, Err(Error::UrlDoesNotExist));
}

#[test]
fn every_5xx_status_preserves_status_and_body() {
    for status in 500..=599u16 {
        let r = resolve_exchange(completed(status, "the backend fell over", None));
        assert_eq!(
            r,
            Err(Error::InternalServerError(
                status,
                "the backend fell over".to_string()
            ))
        );
    }
}

#[test]
fn unclassified_statuses_carry_the_body_unchanged() {
    for status in [100u16, 101, 199, 300, 301, 302, 399, 402, 403, 405, 418, 499, 600, 999] {
        let r = resolve_exchange(completed(status, "original body", None));
        assert_eq!(
            r,
            Err(Error::UnknownResponseStatusCode("original body".to_string()))
        );
    }
}

#[test]
fn unclassified_status_even_with_decodable_body_is_not_success() {
    let r = resolve_exchange(completed(302, "body", Some(1)));
    assert_eq!(r, Err(Error::UnknownResponseStatusCode("body".to_string())));
}

#[test]
fn classified_errors_ignore_a_decodable_body() {
    let r = resolve_exchange(completed(400, "7", Some(7)));
    assert_eq!(r, Err(Error::BadRequest("7".to_string())));
    let r = resolve_exchange(completed(500, "7", Some(7)));
    assert_eq!(r, Err(Error::InternalServerError(500, "7".to_string())));
}

#[test]
fn failed_exchange_is_unreachable_endpoint() {
    let r = resolve_exchange(HttpExchange::<i64>::Failed);
    assert_eq!(r, Err(Error::UnreachableEndpoint));
}
