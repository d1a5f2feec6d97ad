//! The connection capability: readiness and invitation exchange
//! against a scripted agent.

use siera::error::Error;
use siera::modules::connections::{
    Connection, ConnectionCreateInvitationOptions, ConnectionCreateInvitationResponse,
    ConnectionGetAllResponse, ConnectionModule, ConnectionReceiveInvitationOptions,
};
use siera::scripted::ScriptedAgent;

fn connection_in_state(id: &str, state: &str) -> Connection {
    Connection {
        their_role: "invitee".to_string(),
        created_at: "2023-01-01T00:00:00Z".to_string(),
        my_did: Some("did:sov:1".to_string()),
        connection_id: id.to_string(),
        their_did: None,
        invitation_key: "key".to_string(),
        state: state.to_string(),
        routing_state: "none".to_string(),
        accept: "manual".to_string(),
        their_label: Some("peer".to_string()),
        invitation_mode: "once".to_string(),
        rfc23_state: "invitation-sent".to_string(),
        updated_at: "2023-01-01T00:00:00Z".to_string(),
        alias: None,
        request_id: None,
        invitation_msg_id: None,
    }
}

#[test]
fn only_active_and_response_states_are_ready() {
    assert!(connection_in_state("c", "active").is_ready());
    assert!(connection_in_state("c", "response").is_ready());
    assert!(!connection_in_state("c", "abandoned").is_ready());
    assert!(!connection_in_state("c", "request").is_ready());
    assert!(!connection_in_state("c", "Active").is_ready());
    assert!(!connection_in_state("c", "").is_ready());
}

#[test]
fn get_by_id_returns_the_scripted_connection() {
    let mut agent = ScriptedAgent::new();
    agent
        .connection_responses
        .push(Ok(connection_in_state("conn-4", "active")));

    let r = ConnectionModule::get_by_id(&mut agent, "conn-4".to_string());
    assert_eq!(r.unwrap().connection_id, "conn-4");
    assert_eq!(agent.connection_ids_requested, vec!["conn-4".to_string()]);
}

#[test]
fn get_all_returns_every_scripted_connection() {
    let mut agent = ScriptedAgent::new();
    agent.connection_list_responses.push(Ok(ConnectionGetAllResponse {
        results: vec![
            connection_in_state("conn-1", "active"),
            connection_in_state("conn-2", "abandoned"),
        ],
    }));

    let r = ConnectionModule::get_all(&mut agent).unwrap();
    assert_eq!(r.results.len(), 2);
    assert_eq!(r.results[1].state, "abandoned");
}

#[test]
fn create_invitation_hands_back_id_payload_and_url() {
    let mut agent = ScriptedAgent::new();
    let payload: serde_json::Value =
        serde_json::from_str("{\"label\": \"issuer\"}").expect("literal JSON parses");
    agent.create_invitation_responses.push(Ok(ConnectionCreateInvitationResponse {
        connection_id: "conn-8".to_string(),
        invitation: payload,
        invitation_url: "http://agent.example/invite?c_i=abc".to_string(),
        alias: Some("issuer".to_string()),
    }));

    let options = ConnectionCreateInvitationOptions {
        auto_accept: true,
        qr: false,
        toolbox: false,
        multi_use: true,
        alias: Some("issuer".to_string()),
    };
    let r = agent.create_invitation(options).unwrap();

    assert_eq!(r.connection_id, "conn-8");
    assert_eq!(r.invitation_url, "http://agent.example/invite?c_i=abc");
    assert_eq!(r.invitation["label"], "issuer");
    assert_eq!(agent.create_invitations_received.len(), 1);
    assert!(agent.create_invitations_received[0].auto_accept);
    assert!(agent.create_invitations_received[0].multi_use);
}

#[test]
fn receive_invitation_returns_the_resulting_connection() {
    let mut agent = ScriptedAgent::new();
    agent
        .receive_invitation_responses
        .push(Ok(connection_in_state("conn-5", "response")));

    let invitation = ConnectionReceiveInvitationOptions {
        id: Some("inv-1".to_string()),
        did: None,
        image_url: None,
        label: Some("peer".to_string()),
        recipient_keys: Some(vec!["key-1".to_string()]),
        routing_keys: None,
        service_endpoint: Some("http://peer.example".to_string()),
    };
    let r = agent.receive_invitation(invitation).unwrap();

    assert_eq!(r.connection_id, "conn-5");
    assert!(r.is_ready());
    assert_eq!(agent.receive_invitations_received.len(), 1);
    assert_eq!(
        agent.receive_invitations_received[0].label,
        Some("peer".to_string())
    );
}

#[test]
fn an_unscripted_connection_fetch_is_unreachable() {
    let mut agent = ScriptedAgent::new();
    let r = ConnectionModule::get_by_id(&mut agent, "conn-1".to_string());
    assert_eq!(r.unwrap_err(), Error::UnreachableEndpoint);
}
