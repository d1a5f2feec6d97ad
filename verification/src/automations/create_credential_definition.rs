//! The create-credential-definition automation: register a schema, then
//! register a credential definition over it — the first two stages of a
//! credential offer, for callers that want the definition alone.

use vstd::prelude::*;
use vstd::string::StringExecFns;

use crate::error::{Error, ErrorV};
use crate::events::{call_out, AgentEvent, AgentTrace};
use crate::modules::credential_definition::{
    CredentialDefinitionCreateOptions, CredentialDefinitionCreateResponse,
    CredentialDefinitionCreateResponseV, CredentialDefinitionModule,
};
use crate::modules::schema::{SchemaCreateOptions, SchemaCreateOptionsV, SchemaModule};

verus! {

/// A credential definition to be created: the schema to register, as
/// its name, version and attribute names.
pub struct CreateCredentialDefinition<'a> {
    pub name: &'a str,
    pub attributes: Vec<&'a str>,
    pub version: &'a str,
}

/// The whole run of the create-credential-definition automation, as a
/// relation between the backend calls it issued (`tail`, the events
/// appended to the agent's trace) and its result.
///
/// An empty attribute list ends the run with `RequiredAttributes`
/// before any backend call. Otherwise one schema registration and — if
/// that succeeded — one credential-definition creation over the new
/// schema id follow, each failure ending the run with that stage's
/// error; on success the created definition is returned.
pub open spec fn create_credential_definition_run(
    name: Seq<char>,
    version: Seq<char>,
    attributes: Seq<Seq<char>>,
    tail: Seq<AgentEvent>,
    result: Result<CredentialDefinitionCreateResponseV, ErrorV>,
) -> bool {
    if attributes.len() == 0 {
        tail.len() == 0 && result == Err::<CredentialDefinitionCreateResponseV, ErrorV>(
            ErrorV::RequiredAttributes,
        )
    } else {
        &&& tail.len() >= 1
        &&& tail[0] matches AgentEvent::SchemaCreate { options, out } && options
            == (SchemaCreateOptionsV { name, version, attributes }) && (match out {
            Ok(schema) => {
                &&& tail.len() == 2
                &&& tail[1] matches AgentEvent::CredentialDefinitionCreate {
                    options: def_options,
                    out: def_out,
                } && def_options.schema_id == schema.id && (match def_out {
                    Ok(cred_def) => result == Ok::<CredentialDefinitionCreateResponseV, ErrorV>(
                        cred_def,
                    ),
                    Err(e) => result == Err::<CredentialDefinitionCreateResponseV, ErrorV>(e),
                })
            },
            Err(e) => tail.len() == 1 && result == Err::<
                CredentialDefinitionCreateResponseV,
                ErrorV,
            >(e),
        })
    }
}

impl<'a> CreateCredentialDefinition<'a> {
    /// Runs the automation against any agent with the two capabilities
    /// it composes. The calls it issues and how the first failure ends
    /// the run are exactly [`create_credential_definition_run`] over
    /// the events this call appends to the agent's trace.
    pub fn execute<A: SchemaModule + CredentialDefinitionModule>(&self, agent: &mut A) -> (r:
        Result<CredentialDefinitionCreateResponse, Error>)
        ensures
            old(agent).calls().is_prefix_of(final(agent).calls()),
            create_credential_definition_run(
                self.name@,
                self.version@,
                self.attributes.deep_view(),
                final(agent).calls().skip(old(agent).calls().len() as int),
                call_out(r),
            ),
    {
        let ghost pre = agent.calls();

        let mut attributes: Vec<String> = Vec::new();
        let mut i: usize = 0;
        while i < self.attributes.len()
            invariant
                i <= self.attributes.len(),
                attributes.len() == i,
                forall|j: int| 0 <= j < i ==> attributes@[j]@ == self.attributes@[j]@,
            decreases self.attributes.len() - i,
        {
            attributes.push(String::from_str(self.attributes[i]));
            i += 1;
        }
        proof {
            assert(attributes.deep_view() =~= self.attributes.deep_view());
        }

        let schema_options = SchemaCreateOptions {
            name: String::from_str(self.name),
            version: String::from_str(self.version),
            attributes,
        };
        let created = SchemaModule::create(&mut *agent, schema_options);
        let ghost t1 = agent.calls();
        let schema = match created {
            Ok(s) => s,
            Err(e) => {
                proof {
                    assert(pre.is_prefix_of(t1));
                    if t1 != pre {
                        assert(t1.skip(pre.len() as int) =~= seq![t1.last()]);
                    } else {
                        assert(t1.skip(pre.len() as int) =~= Seq::<AgentEvent>::empty());
                    }
                }
                return Err(e);
            },
        };

        let cred_def_options = CredentialDefinitionCreateOptions { schema_id: schema.id };
        let defined = CredentialDefinitionModule::create(&mut *agent, cred_def_options);
        let ghost t2 = agent.calls();
        proof {
            assert(pre.is_prefix_of(t2));
            assert(t2.skip(pre.len() as int) =~= seq![t1.last(), t2.last()]);
        }
        defined
    }
}

} // verus!
