//! The two automations against a scripted agent: call order, argument
//! pairing, and short-circuiting on the first failure.

use siera::automations::create_credential_definition::CreateCredentialDefinition;
use siera::automations::credential_offer::CredentialOfferAutomation;
use siera::error::Error;
use siera::modules::connections::Connection;
use siera::modules::credential::CredentialOfferResponse;
use siera::modules::credential_definition::CredentialDefinitionCreateResponse;
use siera::modules::schema::SchemaCreateResponse;
use siera::scripted::ScriptedAgent;

fn connection_in_state(id: &str, state: &str) -> Connection {
    Connection {
        their_role: "inviter".to_string(),
        created_at: "2023-01-01T00:00:00Z".to_string(),
        my_did: None,
        connection_id: id.to_string(),
        their_did: None,
        invitation_key: "key".to_string(),
        state: state.to_string(),
        routing_state: "none".to_string(),
        accept: "auto".to_string(),
        their_label: None,
        invitation_mode: "once".to_string(),
        rfc23_state: "completed".to_string(),
        updated_at: "2023-01-01T00:00:00Z".to_string(),
        alias: None,
        request_id: None,
        invitation_msg_id: None,
    }
}

fn offer_automation(connection_id: &str, attributes: &[(&str, &str)]) -> CredentialOfferAutomation {
    CredentialOfferAutomation {
        connection_id: connection_id.to_string(),
        attributes: attributes
            .iter()
            .map(|(k, v)| (k.to_string(), v.to_string()))
            .collect(),
    }
}

fn fully_scripted_agent(connection: Connection) -> ScriptedAgent {
    let mut agent = ScriptedAgent::new();
    agent.connection_responses.push(Ok(connection));
    agent.schema_create_responses.push(Ok(SchemaCreateResponse {
        id: "schema-1".to_string(),
        attr_names: vec!["name".to_string(), "age".to_string()],
    }));
    agent
        .credential_definition_responses
        .push(Ok(CredentialDefinitionCreateResponse {
            credential_definition_id: "cred-def-1".to_string(),
        }));
    agent.offer_responses.push(Ok(CredentialOfferResponse {
        credential_exchange_id: "exchange-1".to_string(),
    }));
    agent
}

#[test]
fn offer_to_an_abandoned_connection_stops_after_the_fetch() {
    let mut agent = fully_scripted_agent(connection_in_state("conn-1", "abandoned"));
    let automation = offer_automation("conn-1", &[("name", "Alice"), ("age", "30")]);

    let r = automation.execute(&mut agent);

    assert_eq!(r.unwrap_err(), Error::ConnectionNotReady);
    assert_eq!(agent.connection_ids_requested, vec!["conn-1".to_string()]);
    // no schema, credential-definition or offer call was issued
    assert_eq!(agent.schema_creates_received.len(), 0);
    assert_eq!(agent.credential_definitions_received.len(), 0);
    assert_eq!(agent.offers_received.len(), 0);
    // their scripted responses are all still queued
    assert_eq!(agent.schema_create_responses.len(), 1);
    assert_eq!(agent.credential_definition_responses.len(), 1);
    assert_eq!(agent.offer_responses.len(), 1);
}

#[test]
fn offer_to_an_active_connection_issues_the_four_calls_in_order() {
    let mut agent = fully_scripted_agent(connection_in_state("conn-1", "active"));
    let automation = offer_automation("conn-1", &[("name", "Alice"), ("age", "30")]);

    let r = automation.execute(&mut agent);

    assert!(r.is_ok());
    assert_eq!(agent.connection_ids_requested, vec!["conn-1".to_string()]);

    assert_eq!(agent.schema_creates_received.len(), 1);
    let schema_create = &agent.schema_creates_received[0];
    assert_eq!(schema_create.name, "full-credential-offer-automation");
    assert_eq!(schema_create.version, "1.0");
    assert_eq!(
        schema_create.attributes,
        vec!["name".to_string(), "age".to_string()]
    );

    assert_eq!(agent.credential_definitions_received.len(), 1);
    assert_eq!(agent.credential_definitions_received[0].schema_id, "schema-1");

    assert_eq!(agent.offers_received.len(), 1);
    let offer = &agent.offers_received[0];
    assert_eq!(offer.keys, vec!["name".to_string(), "age".to_string()]);
    assert_eq!(offer.values, vec!["Alice".to_string(), "30".to_string()]);
    assert_eq!(offer.connection_id, "conn-1");
    assert_eq!(offer.cred_def_id, "cred-def-1");
}

#[test]
fn offer_to_a_responded_connection_proceeds_too() {
    let mut agent = fully_scripted_agent(connection_in_state("conn-1", "response"));
    let automation = offer_automation("conn-1", &[("name", "Alice")]);
    assert!(automation.execute(&mut agent).is_ok());
}

#[test]
fn offer_propagates_a_fetch_failure_and_stops() {
    let mut agent = ScriptedAgent::new();
    agent.connection_responses.push(Err(Error::UrlDoesNotExist));
    let automation = offer_automation("conn-1", &[("name", "Alice")]);

    let r = automation.execute(&mut agent);

    assert_eq!(r.unwrap_err(), Error::UrlDoesNotExist);
    assert_eq!(agent.schema_creates_received.len(), 0);
    assert_eq!(agent.offers_received.len(), 0);
}

#[test]
fn offer_propagates_a_schema_failure_and_sends_no_offer() {
    let mut agent = ScriptedAgent::new();
    agent
        .connection_responses
        .push(Ok(connection_in_state("conn-1", "active")));
    agent.schema_create_responses.push(Err(Error::InternalServerError(
        503,
        "ledger unavailable".to_string(),
    )));
    let automation = offer_automation("conn-1", &[("name", "Alice")]);

    let r = automation.execute(&mut agent);

    assert_eq!(
        r.unwrap_err(),
        Error::InternalServerError(503, "ledger unavailable".to_string())
    );
    assert_eq!(agent.schema_creates_received.len(), 1);
    assert_eq!(agent.credential_definitions_received.len(), 0);
    assert_eq!(agent.offers_received.len(), 0);
}

#[test]
fn offer_with_no_attributes_fails_before_the_schema_call() {
    let mut agent = fully_scripted_agent(connection_in_state("conn-1", "active"));
    let automation = offer_automation("conn-1", &[]);

    let r = automation.execute(&mut agent);

    assert_eq!(r.unwrap_err(), Error::RequiredAttributes);
    assert_eq!(agent.schema_creates_received.len(), 0);
    assert_eq!(agent.schema_create_responses.len(), 1);
}

#[test]
fn definition_automation_registers_schema_then_definition() {
    let mut agent = ScriptedAgent::new();
    agent.schema_create_responses.push(Ok(SchemaCreateResponse {
        id: "schema-7".to_string(),
        attr_names: vec!["name".to_string()],
    }));
    agent
        .credential_definition_responses
        .push(Ok(CredentialDefinitionCreateResponse {
            credential_definition_id: "cred-def-7".to_string(),
        }));

    let automation = CreateCredentialDefinition {
        name: "identity",
        attributes: vec!["name"],
        version: "1.0",
    };
    let r = automation.execute(&mut agent);

    assert_eq!(r.unwrap().credential_definition_id, "cred-def-7");
    assert_eq!(agent.schema_creates_received.len(), 1);
    assert_eq!(agent.schema_creates_received[0].name, "identity");
    assert_eq!(agent.schema_creates_received[0].version, "1.0");
    assert_eq!(agent.credential_definitions_received.len(), 1);
    assert_eq!(agent.credential_definitions_received[0].schema_id, "schema-7");
}

#[test]
fn definition_automation_with_no_attributes_fails_without_any_call() {
    let mut agent = ScriptedAgent::new();
    agent.schema_create_responses.push(Ok(SchemaCreateResponse {
        id: "schema-7".to_string(),
        attr_names: vec![],
    }));

    let automation = CreateCredentialDefinition {
        name: "identity",
        attributes: vec![],
        version: "1.0",
    };
    let r = automation.execute(&mut agent);

    assert_eq!(r.unwrap_err(), Error::RequiredAttributes);
    assert_eq!(agent.schema_creates_received.len(), 0);
    assert_eq!(agent.schema_create_responses.len(), 1);
}

#[test]
fn definition_automation_propagates_a_schema_failure() {
    let mut agent = ScriptedAgent::new();
    agent
        .schema_create_responses
        .push(Err(Error::AuthorizationFailed));

    let automation = CreateCredentialDefinition {
        name: "identity",
        attributes: vec!["name"],
        version: "1.0",
    };
    let r = automation.execute(&mut agent);

    assert_eq!(r.unwrap_err(), Error::AuthorizationFailed);
    assert_eq!(agent.credential_definitions_received.len(), 0);
}
