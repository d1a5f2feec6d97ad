//! The credential-offer automation: fetch a connection, register a
//! schema over the offer's attribute keys, register a credential
//! definition over that schema, and offer the credential — in that
//! order, stopping at the first failure.

use vstd::prelude::*;
use vstd::string::StringExecFns;

use crate::error::{with_err_view, Error, ErrorV};
use crate::events::{AgentEvent, AgentTrace};
use crate::modules::connections::{is_ready_state, ConnectionModule};
use crate::modules::credential::{CredentialModule, CredentialOfferOptions, CredentialOfferOptionsV};
use crate::modules::credential_definition::{
    CredentialDefinitionCreateOptions, CredentialDefinitionModule,
};
use crate::modules::schema::{SchemaCreateOptions, SchemaCreateOptionsV, SchemaModule};

verus! {

/// A credential offer to one connection: the connection id and the
/// attribute pairs, each a name with its value, in the order the offer
/// will declare them.
pub struct CredentialOfferAutomation {
    pub connection_id: String,
    pub attributes: Vec<(String, String)>,
}

/// The attribute names of an offer, in declaration order.
pub open spec fn offer_keys(attrs: Seq<(Seq<char>, Seq<char>)>) -> Seq<Seq<char>> {
    attrs.map_values(|p: (Seq<char>, Seq<char>)| p.0)
}

/// The attribute values of an offer, in the same order as the names.
pub open spec fn offer_values(attrs: Seq<(Seq<char>, Seq<char>)>) -> Seq<Seq<char>> {
    attrs.map_values(|p: (Seq<char>, Seq<char>)| p.1)
}

/// The schema this automation registers: a fixed name and version over
/// the offer's attribute keys.
pub open spec fn offer_schema_options(keys: Seq<Seq<char>>) -> SchemaCreateOptionsV {
    SchemaCreateOptionsV {
        name: "full-credential-offer-automation"@,
        version: "1.0"@,
        attributes: keys,
    }
}

/// Stage four: exactly one offer is sent, carrying the connection id,
/// the credential-definition id of stage three, and the attribute keys
/// and values in corresponding order; its outcome is the automation's.
pub open spec fn offer_run_from_send(
    cid: Seq<char>,
    keys: Seq<Seq<char>>,
    values: Seq<Seq<char>>,
    cred_def_id: Seq<char>,
    tail: Seq<AgentEvent>,
    result: Result<(), ErrorV>,
) -> bool {
    &&& tail.len() == 1
    &&& tail[0] matches AgentEvent::CredentialSendOffer { options, out } && options
        == (CredentialOfferOptionsV { keys, values, connection_id: cid, cred_def_id }) && (match out {
        Ok(_) => result == Ok::<(), ErrorV>(()),
        Err(e) => result == Err::<(), ErrorV>(e),
    })
}

/// Stage three: one credential definition is created over the schema id
/// of stage two; a failure ends the run with that error.
pub open spec fn offer_run_from_cred_def(
    cid: Seq<char>,
    keys: Seq<Seq<char>>,
    values: Seq<Seq<char>>,
    schema_id: Seq<char>,
    tail: Seq<AgentEvent>,
    result: Result<(), ErrorV>,
) -> bool {
    &&& tail.len() >= 1
    &&& tail[0] matches AgentEvent::CredentialDefinitionCreate { options, out } && options.schema_id
        == schema_id && (match out {
        Ok(cred_def) => offer_run_from_send(
            cid,
            keys,
            values,
            cred_def.credential_definition_id,
            tail.skip(1),
            result,
        ),
        Err(e) => tail.len() == 1 && result == Err::<(), ErrorV>(e),
    })
}

/// Stage two: one schema is registered, with the automation's fixed
/// name and version and the offer's attribute keys; a failure ends the
/// run with that error.
pub open spec fn offer_run_from_schema(
    cid: Seq<char>,
    keys: Seq<Seq<char>>,
    values: Seq<Seq<char>>,
    tail: Seq<AgentEvent>,
    result: Result<(), ErrorV>,
) -> bool {
    &&& tail.len() >= 1
    &&& tail[0] matches AgentEvent::SchemaCreate { options, out } && options
        == offer_schema_options(keys) && (match out {
        Ok(schema) => offer_run_from_cred_def(cid, keys, values, schema.id, tail.skip(1), result),
        Err(e) => tail.len() == 1 && result == Err::<(), ErrorV>(e),
    })
}

/// The whole run of the credential-offer automation, as a relation
/// between the backend calls it issued (`tail`, the events appended to
/// the agent's trace) and its result.
///
/// The first call fetches the connection. A transport failure there
/// ends the run with that error and no further call. A connection whose
/// state is not ready ends the run with `ConnectionNotReady` and no
/// further call. An empty attribute list ends the run with
/// `RequiredAttributes`, the schema stage having refused it before any
/// backend call. Otherwise the schema, credential-definition and offer
/// stages follow in that order, each issuing exactly one call, each
/// failure ending the run with that stage's error.
pub open spec fn credential_offer_run(
    cid: Seq<char>,
    attrs: Seq<(Seq<char>, Seq<char>)>,
    tail: Seq<AgentEvent>,
    result: Result<(), ErrorV>,
) -> bool {
    let keys = offer_keys(attrs);
    let values = offer_values(attrs);
    &&& tail.len() >= 1
    &&& tail[0] matches AgentEvent::ConnectionGetById { id, out } && id == cid && (match out {
        Ok(connection) => {
            if !is_ready_state(connection.state) {
                tail.len() == 1 && result == Err::<(), ErrorV>(ErrorV::ConnectionNotReady)
            } else if keys.len() == 0 {
                tail.len() == 1 && result == Err::<(), ErrorV>(ErrorV::RequiredAttributes)
            } else {
                offer_run_from_schema(cid, keys, values, tail.skip(1), result)
            }
        },
        Err(e) => tail.len() == 1 && result == Err::<(), ErrorV>(e),
    })
}

/// When the fetched connection is not in a ready state, the automation
/// stops there: it issues no schema, credential-definition or offer
/// call, and ends with `ConnectionNotReady`.
pub proof fn lemma_offer_stops_when_connection_not_ready(
    cid: Seq<char>,
    attrs: Seq<(Seq<char>, Seq<char>)>,
    tail: Seq<AgentEvent>,
    result: Result<(), ErrorV>,
    connection: crate::modules::connections::ConnectionV,
)
    requires
        credential_offer_run(cid, attrs, tail, result),
        tail[0] == (AgentEvent::ConnectionGetById {
            id: cid,
            out: Ok::<crate::modules::connections::ConnectionV, ErrorV>(connection),
        }),
        !is_ready_state(connection.state),
    ensures
        tail.len() == 1,
        result == Err::<(), ErrorV>(ErrorV::ConnectionNotReady),
{
}

/// When the automation succeeds it has issued exactly four calls, in
/// the fixed order fetch, schema create, credential-definition create,
/// offer — the schema declaring the attribute keys, and the offer
/// carrying the connection id and the keys and values in corresponding
/// order.
pub proof fn lemma_offer_success_calls_in_order(
    cid: Seq<char>,
    attrs: Seq<(Seq<char>, Seq<char>)>,
    tail: Seq<AgentEvent>,
    result: Result<(), ErrorV>,
)
    requires
        credential_offer_run(cid, attrs, tail, result),
        result is Ok,
    ensures
        tail.len() == 4,
        tail[0] matches AgentEvent::ConnectionGetById { id, .. } && id == cid,
        tail[1] matches AgentEvent::SchemaCreate { options, .. } && options
            == offer_schema_options(offer_keys(attrs)),
        tail[2] is CredentialDefinitionCreate,
        tail[3] matches AgentEvent::CredentialSendOffer { options, .. } && options.keys
            == offer_keys(attrs) && options.values == offer_values(attrs)
            && options.connection_id == cid,
{
    assert(tail.skip(1)[0] == tail[1]);
    assert(tail.skip(1).skip(1) =~= tail.skip(2));
    assert(tail.skip(2)[0] == tail[2]);
    assert(tail.skip(2).skip(1) =~= tail.skip(3));
    assert(tail.skip(3)[0] == tail[3]);
}

/// The attribute names of an offer, cloned out in declaration order.
fn offer_attribute_keys(attributes: &Vec<(String, String)>) -> (r: Vec<String>)
    ensures
        r.deep_view() == offer_keys(attributes.deep_view()),
{
    let mut keys: Vec<String> = Vec::new();
    let mut i: usize = 0;
    while i < attributes.len()
        invariant
            i <= attributes.len(),
            keys.len() == i,
            forall|j: int| 0 <= j < i ==> keys@[j]@ == attributes@[j].0@,
        decreases attributes.len() - i,
    {
        keys.push(attributes[i].0.clone());
        i += 1;
    }
    proof {
        assert(keys.deep_view() =~= offer_keys(attributes.deep_view()));
    }
    keys
}

/// The attribute values of an offer, cloned out in the same order.
fn offer_attribute_values(attributes: &Vec<(String, String)>) -> (r: Vec<String>)
    ensures
        r.deep_view() == offer_values(attributes.deep_view()),
{
    let mut values: Vec<String> = Vec::new();
    let mut i: usize = 0;
    while i < attributes.len()
        invariant
            i <= attributes.len(),
            values.len() == i,
            forall|j: int| 0 <= j < i ==> values@[j]@ == attributes@[j].1@,
        decreases attributes.len() - i,
    {
        values.push(attributes[i].1.clone());
        i += 1;
    }
    proof {
        assert(values.deep_view() =~= offer_values(attributes.deep_view()));
    }
    values
}

impl CredentialOfferAutomation {
    /// Runs the automation against any agent with the four capabilities
    /// it composes. The calls it issues, their order and their
    /// arguments, and how the first failure ends the run, are exactly
    /// [`credential_offer_run`] over the events this call appends to
    /// the agent's trace.
    pub fn execute<A: ConnectionModule + CredentialModule + SchemaModule + CredentialDefinitionModule>(
        &self,
        agent: &mut A,
    ) -> (r: Result<(), Error>)
        ensures
            old(agent).calls().is_prefix_of(final(agent).calls()),
            credential_offer_run(
                self.connection_id@,
                self.attributes.deep_view(),
                final(agent).calls().skip(old(agent).calls().len() as int),
                with_err_view(r),
            ),
    {
        let ghost pre = agent.calls();

        // Stage one: the connection must exist and be ready.
        let fetched = ConnectionModule::get_by_id(&mut *agent, self.connection_id.clone());
        let ghost t1 = agent.calls();
        let connection = match fetched {
            Ok(c) => c,
            Err(e) => {
                proof {
                    assert(pre.is_prefix_of(t1));
                    assert(t1.skip(pre.len() as int) =~= seq![t1.last()]);
                }
                return Err(e);
            },
        };
        if !connection.is_ready() {
            proof {
                assert(pre.is_prefix_of(t1));
                assert(t1.skip(pre.len() as int) =~= seq![t1.last()]);
            }
            return Err(Error::ConnectionNotReady);
        }

        // Stage two: register the schema over the attribute keys.
        let schema_options = SchemaCreateOptions {
            name: String::from_str("full-credential-offer-automation"),
            version: String::from_str("1.0"),
            attributes: offer_attribute_keys(&self.attributes),
        };
        let created = SchemaModule::create(&mut *agent, schema_options);
        let ghost t2 = agent.calls();
        let schema = match created {
            Ok(s) => s,
            Err(e) => {
                proof {
                    assert(pre.is_prefix_of(t2));
                    if t2 == t1 {
                        assert(t2.skip(pre.len() as int) =~= seq![t2.last()]);
                    } else {
                        assert(t2.skip(pre.len() as int) =~= seq![t1.last(), t2.last()]);
                        assert(t2.skip(pre.len() as int).skip(1) =~= seq![t2.last()]);
                    }
                }
                return Err(e);
            },
        };

        // Stage three: register the credential definition over the new
        // schema id.
        let cred_def_options = CredentialDefinitionCreateOptions { schema_id: schema.id };
        let defined = CredentialDefinitionModule::create(&mut *agent, cred_def_options);
        let ghost t3 = agent.calls();
        let credential_definition = match defined {
            Ok(d) => d,
            Err(e) => {
                proof {
                    assert(pre.is_prefix_of(t3));
                    assert(t3.skip(pre.len() as int) =~= seq![t1.last(), t2.last(), t3.last()]);
                    assert(t3.skip(pre.len() as int).skip(1) =~= seq![t2.last(), t3.last()]);
                    assert(t3.skip(pre.len() as int).skip(1).skip(1) =~= seq![t3.last()]);
                }
                return Err(e);
            },
        };

        // Stage four: offer the credential.
        let offer_options = CredentialOfferOptions {
            keys: offer_attribute_keys(&self.attributes),
            values: offer_attribute_values(&self.attributes),
            connection_id: self.connection_id.clone(),
            cred_def_id: credential_definition.credential_definition_id,
        };
        proof {
            assert(offer_options.keys@.len() == offer_options.keys.deep_view().len());
            assert(offer_options.values@.len() == offer_options.values.deep_view().len());
        }
        let offered = agent.send_offer(offer_options);
        let ghost t4 = agent.calls();
        proof {
            assert(pre.is_prefix_of(t4));
            assert(t4.skip(pre.len() as int) =~= seq![t1.last(), t2.last(), t3.last(), t4.last()]);
            assert(t4.skip(pre.len() as int).skip(1) =~= seq![t2.last(), t3.last(), t4.last()]);
            assert(t4.skip(pre.len() as int).skip(1).skip(1) =~= seq![t3.last(), t4.last()]);
            assert(t4.skip(pre.len() as int).skip(1).skip(1).skip(1) =~= seq![t4.last()]);
        }
        match offered {
            Ok(_) => Ok(()),
            Err(e) => Err(e),
        }
    }
}

} // verus!
