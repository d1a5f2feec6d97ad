//! The schema subcommand: registering a schema or reading what is
//! registered, with the empty-attribute check made before any call.

use vstd::prelude::*;

use crate::error::{Error, ErrorV};
use crate::events::{call_out, AgentEvent, AgentTrace};
use crate::modules::schema::{
    Schema, SchemaCreateOptions, SchemaCreateOptionsV, SchemaCreateResponse,
    SchemaCreateResponseV, SchemaGetAllResponse, SchemaGetAllResponseV, SchemaModule, SchemaV,
};
use crate::util::clone_string_vec;

verus! {

/// Schema options and flags: the chosen subcommand.
pub struct SchemaOptions {
    pub commands: SchemaSubcommands,
}

/// The schema subcommands.
pub enum SchemaSubcommands {
    /// Register a new schema with a name, a version and the attributes
    /// a credential under it must carry.
    Create { name: String, version: String, attribute: Vec<String> },
    /// List all registered schema ids, or fetch one schema by id.
    List { id: Option<String> },
}

/// Mathematical image of [`SchemaSubcommands`].
pub enum SchemaSubcommandsV {
    Create { name: Seq<char>, version: Seq<char>, attribute: Seq<Seq<char>> },
    List { id: Option<Seq<char>> },
}

impl View for SchemaSubcommands {
    type V = SchemaSubcommandsV;

    open spec fn view(&self) -> SchemaSubcommandsV {
        match self {
            SchemaSubcommands::Create { name, version, attribute } => SchemaSubcommandsV::Create {
                name: name@,
                version: version@,
                attribute: attribute.deep_view(),
            },
            SchemaSubcommands::List { id } => SchemaSubcommandsV::List { id: id.deep_view() },
        }
    }
}

/// What a schema subcommand hands back to be shown.
#[derive(Debug)]
pub enum SchemaCommandOutcome {
    Created(SchemaCreateResponse),
    Fetched(Schema),
    Listed(SchemaGetAllResponse),
}

/// Mathematical image of [`SchemaCommandOutcome`].
pub enum SchemaCommandOutcomeV {
    Created(SchemaCreateResponseV),
    Fetched(SchemaV),
    Listed(SchemaGetAllResponseV),
}

impl View for SchemaCommandOutcome {
    type V = SchemaCommandOutcomeV;

    open spec fn view(&self) -> SchemaCommandOutcomeV {
        match self {
            SchemaCommandOutcome::Created(r) => SchemaCommandOutcomeV::Created(r@),
            SchemaCommandOutcome::Fetched(s) => SchemaCommandOutcomeV::Fetched(s@),
            SchemaCommandOutcome::Listed(r) => SchemaCommandOutcomeV::Listed(r@),
        }
    }
}

/// The dispatch of one schema subcommand: which backend call it issues
/// — none for a creation with an empty attribute list, which is
/// rejected with `RequiredAttributes` client-side — and how the call's
/// outcome becomes the subcommand's.
pub open spec fn schema_args_run(
    cmd: SchemaSubcommandsV,
    tail: Seq<AgentEvent>,
    result: Result<SchemaCommandOutcomeV, ErrorV>,
) -> bool {
    match cmd {
        SchemaSubcommandsV::Create { name, version, attribute } => {
            if attribute.len() == 0 {
                tail.len() == 0 && result == Err::<SchemaCommandOutcomeV, ErrorV>(
                    ErrorV::RequiredAttributes,
                )
            } else {
                &&& tail.len() == 1
                &&& tail[0] matches AgentEvent::SchemaCreate { options, out } && options
                    == (SchemaCreateOptionsV { name, version, attributes: attribute }) && (
                match out {
                    Ok(schema) => result == Ok::<SchemaCommandOutcomeV, ErrorV>(
                        SchemaCommandOutcomeV::Created(schema),
                    ),
                    Err(e) => result == Err::<SchemaCommandOutcomeV, ErrorV>(e),
                })
            }
        },
        SchemaSubcommandsV::List { id: Some(id) } => {
            &&& tail.len() == 1
            &&& tail[0] matches AgentEvent::SchemaGetById { id: called, out } && called == id && (
            match out {
                Ok(schema) => result == Ok::<SchemaCommandOutcomeV, ErrorV>(
                    SchemaCommandOutcomeV::Fetched(schema),
                ),
                Err(e) => result == Err::<SchemaCommandOutcomeV, ErrorV>(e),
            })
        },
        SchemaSubcommandsV::List { id: None } => {
            &&& tail.len() == 1
            &&& tail[0] matches AgentEvent::SchemaGetAll { out } && (match out {
                Ok(schemas) => result == Ok::<SchemaCommandOutcomeV, ErrorV>(
                    SchemaCommandOutcomeV::Listed(schemas),
                ),
                Err(e) => result == Err::<SchemaCommandOutcomeV, ErrorV>(e),
            })
        },
    }
}

/// Dispatches one schema subcommand against any agent with the schema
/// capability. A creation with an empty attribute list never issues a
/// backend call and fails with `RequiredAttributes`; otherwise exactly
/// one backend call is issued and its outcome is handed back.
pub fn parse_schema_args<A: SchemaModule>(options: &SchemaOptions, agent: &mut A) -> (r: Result<
    SchemaCommandOutcome,
    Error,
>)
    ensures
        old(agent).calls().is_prefix_of(final(agent).calls()),
        schema_args_run(
            options.commands@,
            final(agent).calls().skip(old(agent).calls().len() as int),
            call_out(r),
        ),
{
    let ghost pre = agent.calls();
    match &options.commands {
        SchemaSubcommands::Create { name, version, attribute } => {
            if attribute.len() == 0 {
                proof {
                    assert(pre.is_prefix_of(pre));
                    assert(pre.skip(pre.len() as int) =~= Seq::<AgentEvent>::empty());
                }
                return Err(Error::RequiredAttributes);
            }
            let create_options = SchemaCreateOptions {
                name: name.clone(),
                version: version.clone(),
                attributes: clone_string_vec(attribute),
            };
            proof {
                assert(create_options.attributes.deep_view().len()
                    == create_options.attributes@.len());
                assert(attribute.deep_view().len() == attribute@.len());
                assert(create_options.attributes@.len() == attribute@.len());
            }
            let created = SchemaModule::create(&mut *agent, create_options);
            proof {
                let t1 = agent.calls();
                assert(pre.is_prefix_of(t1));
                assert(t1.skip(pre.len() as int) =~= seq![t1.last()]);
            }
            match created {
                Ok(schema) => Ok(SchemaCommandOutcome::Created(schema)),
                Err(e) => Err(e),
            }
        },
        SchemaSubcommands::List { id: Some(id) } => {
            let fetched = SchemaModule::get_by_id(&mut *agent, id.clone());
            proof {
                let t1 = agent.calls();
                assert(pre.is_prefix_of(t1));
                assert(t1.skip(pre.len() as int) =~= seq![t1.last()]);
            }
            match fetched {
                Ok(schema) => Ok(SchemaCommandOutcome::Fetched(schema)),
                Err(e) => Err(e),
            }
        },
        SchemaSubcommands::List { id: None } => {
            let listed = SchemaModule::get_all(&mut *agent);
            proof {
                let t1 = agent.calls();
                assert(pre.is_prefix_of(t1));
                assert(t1.skip(pre.len() as int) =~= seq![t1.last()]);
            }
            match listed {
                Ok(schemas) => Ok(SchemaCommandOutcome::Listed(schemas)),
                Err(e) => Err(e),
            }
        },
    }
}

} // verus!
