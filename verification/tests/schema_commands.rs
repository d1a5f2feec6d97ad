//! The schema subcommand against a scripted agent.

use siera::cli::schema::{parse_schema_args, SchemaCommandOutcome, SchemaOptions, SchemaSubcommands};
use siera::error::Error;
use siera::modules::schema::{Schema, SchemaCreateResponse, SchemaGetAllResponse};
use siera::scripted::ScriptedAgent;

fn create_options(name: &str, version: &str, attributes: &[&str]) -> SchemaOptions {
    SchemaOptions {
        commands: SchemaSubcommands::Create {
            name: name.to_string(),
            version: version.to_string(),
            attribute: attributes.iter().map(|a| a.to_string()).collect(),
        },
    }
}

fn scripted_create_response(id: &str, attributes: &[&str]) -> SchemaCreateResponse {
    SchemaCreateResponse {
        id: id.to_string(),
        attr_names: attributes.iter().map(|a| a.to_string()).collect(),
    }
}

#[test]
fn create_with_empty_attribute_list_fails_without_any_call() {
    let mut agent = ScriptedAgent::new();
    agent
        .schema_create_responses
        .push(Ok(scripted_create_response("schema-1", &[])));

    let options = create_options("identity", "1.0", &[]);
    let r = parse_schema_args(&options, &mut agent);

    assert_eq!(r.unwrap_err(), Error::RequiredAttributes);
    // the scripted response is still queued: no call consumed it
    assert_eq!(agent.schema_create_responses.len(), 1);
    assert_eq!(agent.schema_creates_received.len(), 0);
}

#[test]
fn create_sends_the_declared_schema_and_returns_the_created_one() {
    let mut agent = ScriptedAgent::new();
    agent
        .schema_create_responses
        .push(Ok(scripted_create_response("schema-1", &["name", "age"])));

    let options = create_options("identity", "2.1", &["name", "age"]);
    let r = parse_schema_args(&options, &mut agent);

    match r.unwrap() {
        SchemaCommandOutcome::Created(schema) => {
            assert_eq!(schema.id, "schema-1");
            assert_eq!(schema.attr_names, vec!["name".to_string(), "age".to_string()]);
        }
        other => panic!("expected a created schema, got {:?}", other),
    }
    assert_eq!(agent.schema_creates_received.len(), 1);
    assert_eq!(agent.schema_creates_received[0].name, "identity");
    assert_eq!(agent.schema_creates_received[0].version, "2.1");
    assert_eq!(
        agent.schema_creates_received[0].attributes,
        vec!["name".to_string(), "age".to_string()]
    );
}

#[test]
fn create_propagates_the_backend_error_unchanged() {
    let mut agent = ScriptedAgent::new();
    agent
        .schema_create_responses
        .push(Err(Error::BadRequest("schema already exists".to_string())));

    let options = create_options("identity", "1.0", &["name"]);
    let r = parse_schema_args(&options, &mut agent);

    assert_eq!(
        r.unwrap_err(),
        Error::BadRequest("schema already exists".to_string())
    );
}

#[test]
fn rerunning_an_identical_create_is_not_required_to_error() {
    // a backend that already registered the schema may simply return it
    // again; nothing in this layer assumes a uniqueness failure
    let mut agent = ScriptedAgent::new();
    agent
        .schema_create_responses
        .push(Ok(scripted_create_response("schema-1", &["name", "age"])));
    agent
        .schema_create_responses
        .push(Ok(scripted_create_response("schema-1", &["name", "age"])));

    let first = parse_schema_args(&create_options("identity", "1.0", &["name", "age"]), &mut agent);
    let second = parse_schema_args(&create_options("identity", "1.0", &["name", "age"]), &mut agent);

    assert!(matches!(first, Ok(SchemaCommandOutcome::Created(_))));
    assert!(matches!(second, Ok(SchemaCommandOutcome::Created(_))));
    assert_eq!(agent.schema_creates_received.len(), 2);
}

#[test]
fn list_with_id_fetches_that_schema() {
    let mut agent = ScriptedAgent::new();
    agent.schema_get_responses.push(Ok(Schema {
        id: "schema-9".to_string(),
        name: "identity".to_string(),
        version: "1.0".to_string(),
        attr_names: vec!["name".to_string()],
    }));

    let options = SchemaOptions {
        commands: SchemaSubcommands::List { id: Some("schema-9".to_string()) },
    };
    let r = parse_schema_args(&options, &mut agent);

    match r.unwrap() {
        SchemaCommandOutcome::Fetched(schema) => assert_eq!(schema.id, "schema-9"),
        other => panic!("expected a fetched schema, got {:?}", other),
    }
    assert_eq!(agent.schema_ids_requested, vec!["schema-9".to_string()]);
}

#[test]
fn list_without_id_lists_every_schema_id() {
    let mut agent = ScriptedAgent::new();
    agent.schema_list_responses.push(Ok(SchemaGetAllResponse {
        schema_ids: vec!["schema-1".to_string(), "schema-2".to_string()],
    }));

    let options = SchemaOptions { commands: SchemaSubcommands::List { id: None } };
    let r = parse_schema_args(&options, &mut agent);

    match r.unwrap() {
        SchemaCommandOutcome::Listed(listed) => {
            assert_eq!(
                listed.schema_ids,
                vec!["schema-1".to_string(), "schema-2".to_string()]
            );
        }
        other => panic!("expected the schema id list, got {:?}", other),
    }
}

#[test]
fn an_unscripted_call_is_an_unreachable_endpoint() {
    let mut agent = ScriptedAgent::new();
    let options = SchemaOptions { commands: SchemaSubcommands::List { id: None } };
    let r = parse_schema_args(&options, &mut agent);
    assert_eq!(r.unwrap_err(), Error::UnreachableEndpoint);
}
