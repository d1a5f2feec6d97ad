//! The proof subcommand: validating predicate thresholds and sending a
//! proof request.

use vstd::prelude::*;

use crate::error::{Error, ErrorV};
use crate::events::{call_out, AgentEvent, AgentTrace};
use crate::modules::proofs::{
    Predicate, ProofModule, ProofRequestOptions, ProofRequestOptionsV, ProofRequestResponse,
    ProofRequestResponseV,
};
use crate::numbers::parsed_i32;
use crate::util::clone_string_vec;

verus! {

/// Proof options and flags: the chosen subcommand.
pub struct ProofOptions {
    pub commands: ProofSubcommands,
}

/// The proof subcommands.
pub enum ProofSubcommands {
    /// Send a proof request to a connection: the request's name, the
    /// attributes the peer must disclose, and the predicates — each a
    /// subject, a comparator and a threshold still in text — it must
    /// satisfy.
    Request {
        connection_id: String,
        name: String,
        predicate: Vec<Predicate>,
        attribute: Vec<String>,
    },
}

/// Mathematical image of [`ProofSubcommands`].
pub enum ProofSubcommandsV {
    Request {
        connection_id: Seq<char>,
        name: Seq<char>,
        predicate: Seq<(Seq<char>, Seq<char>, Seq<char>)>,
        attribute: Seq<Seq<char>>,
    },
}

impl View for ProofSubcommands {
    type V = ProofSubcommandsV;

    open spec fn view(&self) -> ProofSubcommandsV {
        match self {
            ProofSubcommands::Request { connection_id, name, predicate, attribute } => {
                ProofSubcommandsV::Request {
                    connection_id: connection_id@,
                    name: name@,
                    predicate: predicate.deep_view(),
                    attribute: attribute.deep_view(),
                }
            },
        }
    }
}

/// What parsing a predicate list yields: every threshold read as an
/// integer, or — at the first predicate whose threshold is not one —
/// `PredicateValueNonNumber` naming that predicate's subject and the
/// offending value.
pub open spec fn parse_predicates_spec(preds: Seq<(Seq<char>, Seq<char>, Seq<char>)>) -> Result<
    Seq<(Seq<char>, Seq<char>, i32)>,
    ErrorV,
>
    decreases preds.len(),
{
    if preds.len() == 0 {
        Ok(Seq::empty())
    } else {
        let head = preds[0];
        match parsed_i32(head.2) {
            Some(value) => match parse_predicates_spec(preds.skip(1)) {
                Ok(rest) => Ok(seq![(head.0, head.1, value)] + rest),
                Err(e) => Err(e),
            },
            None => Err(ErrorV::PredicateValueNonNumber(head.0, head.2)),
        }
    }
}

/// When every threshold up to a failing one parses, the whole list
/// fails on exactly that one.
proof fn lemma_parse_predicates_err(preds: Seq<(Seq<char>, Seq<char>, Seq<char>)>, i: int)
    requires
        0 <= i < preds.len(),
        forall|j: int| 0 <= j < i ==> parsed_i32((#[trigger] preds[j]).2) is Some,
        parsed_i32(preds[i].2) is None,
    ensures
        parse_predicates_spec(preds) == Err::<Seq<(Seq<char>, Seq<char>, i32)>, ErrorV>(
            ErrorV::PredicateValueNonNumber(preds[i].0, preds[i].2),
        ),
    decreases i,
{
    if i > 0 {
        lemma_parse_predicates_err(preds.skip(1), i - 1);
    }
}

/// When every threshold parses, the whole list parses, pair for pair.
proof fn lemma_parse_predicates_ok(preds: Seq<(Seq<char>, Seq<char>, Seq<char>)>)
    requires
        forall|j: int| 0 <= j < preds.len() ==> parsed_i32((#[trigger] preds[j]).2) is Some,
    ensures
        parse_predicates_spec(preds) matches Ok(parsed) && parsed.len() == preds.len() && forall|
            j: int,
        |
            0 <= j < preds.len() ==> #[trigger] parsed[j] == (
                preds[j].0,
                preds[j].1,
                parsed_i32(preds[j].2).unwrap(),
            ),
    decreases preds.len(),
{
    if preds.len() > 0 {
        lemma_parse_predicates_ok(preds.skip(1));
    }
}

/// Reads every predicate's threshold as an integer, in order, stopping
/// at the first one that is not an integer: that predicate's subject
/// and value come back as `PredicateValueNonNumber`, and nothing is
/// sent anywhere.
pub fn parse_predicates(predicate: &Vec<Predicate>) -> (r: Result<
    Vec<(String, String, i32)>,
    Error,
>)
    ensures
        match r {
            Ok(parsed) => parse_predicates_spec(predicate.deep_view()) == Ok::<
                Seq<(Seq<char>, Seq<char>, i32)>,
                ErrorV,
            >(parsed.deep_view()),
            Err(e) => parse_predicates_spec(predicate.deep_view()) == Err::<
                Seq<(Seq<char>, Seq<char>, i32)>,
                ErrorV,
            >(e@),
        },
{
    let mut parsed: Vec<(String, String, i32)> = Vec::new();
    let mut i: usize = 0;
    while i < predicate.len()
        invariant
            i <= predicate.len(),
            parsed.len() == i,
            forall|j: int|
                0 <= j < i ==> parsed_i32((#[trigger] predicate.deep_view()[j]).2) is Some,
            forall|j: int|
                0 <= j < i ==> #[trigger] parsed.deep_view()[j] == (
                    predicate.deep_view()[j].0,
                    predicate.deep_view()[j].1,
                    parsed_i32(predicate.deep_view()[j].2).unwrap(),
                ),
        decreases predicate.len() - i,
    {
        let ghost dv0 = parsed.deep_view();
        let p = &predicate[i];
        match crate::numbers::parse_i32(p.2.as_str()) {
            Some(value) => {
                parsed.push((p.0.clone(), p.1.clone(), value));
                proof {
                    assert forall|j: int| 0 <= j < i + 1 implies #[trigger] parsed.deep_view()[j]
                        == (
                        predicate.deep_view()[j].0,
                        predicate.deep_view()[j].1,
                        parsed_i32(predicate.deep_view()[j].2).unwrap(),
                    ) by {
                        assert(parsed.deep_view()[j] == parsed@[j].deep_view());
                        assert(predicate.deep_view()[j] == predicate@[j].deep_view());
                        if j < i {
                            assert(dv0[j] == parsed@[j].deep_view());
                        }
                    }
                }
            },
            None => {
                proof {
                    lemma_parse_predicates_err(predicate.deep_view(), i as int);
                }
                return Err(Error::PredicateValueNonNumber(p.0.clone(), p.2.clone()));
            },
        }
        i += 1;
    }
    proof {
        lemma_parse_predicates_ok(predicate.deep_view());
        let spec_result = parse_predicates_spec(predicate.deep_view());
        assert(parsed.deep_view() =~= spec_result->Ok_0);
    }
    Ok(parsed)
}

/// The dispatch of one proof subcommand: a predicate list with a
/// non-integer threshold is rejected before any backend call;
/// otherwise exactly one proof request is sent, carrying the
/// connection id, the request name, the attributes and the parsed
/// predicates, and its outcome is the subcommand's.
pub open spec fn proof_args_run(
    cmd: ProofSubcommandsV,
    tail: Seq<AgentEvent>,
    result: Result<ProofRequestResponseV, ErrorV>,
) -> bool {
    match cmd {
        ProofSubcommandsV::Request { connection_id, name, predicate, attribute } => {
            match parse_predicates_spec(predicate) {
                Err(e) => tail.len() == 0 && result == Err::<ProofRequestResponseV, ErrorV>(e),
                Ok(parsed) => {
                    &&& tail.len() == 1
                    &&& tail[0] matches AgentEvent::ProofSendRequest { options, out } && options
                        == (ProofRequestOptionsV {
                        connection_id,
                        name,
                        attributes: attribute,
                        predicates: parsed,
                    }) && (match out {
                        Ok(resp) => result == Ok::<ProofRequestResponseV, ErrorV>(resp),
                        Err(e) => result == Err::<ProofRequestResponseV, ErrorV>(e),
                    })
                },
            }
        },
    }
}

/// Dispatches one proof subcommand against any agent with the proof
/// capability. Every predicate threshold must parse as an integer
/// before anything is sent; the first that does not fails the command
/// with `PredicateValueNonNumber` and no backend call.
pub fn parse_proof_args<A: ProofModule>(commands: &ProofSubcommands, agent: &mut A) -> (r: Result<
    ProofRequestResponse,
    Error,
>)
    ensures
        old(agent).calls().is_prefix_of(final(agent).calls()),
        proof_args_run(
            commands@,
            final(agent).calls().skip(old(agent).calls().len() as int),
            call_out(r),
        ),
{
    let ghost pre = agent.calls();
    match commands {
        ProofSubcommands::Request { connection_id, name, predicate, attribute } => {
            let predicates = match parse_predicates(predicate) {
                Ok(parsed) => parsed,
                Err(e) => {
                    proof {
                        assert(pre.is_prefix_of(pre));
                        assert(pre.skip(pre.len() as int) =~= Seq::<AgentEvent>::empty());
                    }
                    return Err(e);
                },
            };
            let request_options = ProofRequestOptions {
                connection_id: connection_id.clone(),
                name: name.clone(),
                attributes: clone_string_vec(attribute),
                predicates,
            };
            let sent = agent.send_request(request_options);
            proof {
                let t1 = agent.calls();
                assert(pre.is_prefix_of(t1));
                assert(t1.skip(pre.len() as int) =~= seq![t1.last()]);
            }
            sent
        },
    }
}

} // verus!
