//! The schema capability: registering and reading named, versioned
//! attribute lists.

use vstd::prelude::*;

use crate::error::Error;
use crate::events::{call_out, AgentEvent, AgentTrace};

verus! {

/// What a schema registration declares.
#[derive(Debug)]
pub struct SchemaCreateOptions {
    pub name: String,
    pub version: String,
    pub attributes: Vec<String>,
}

/// Mathematical image of [`SchemaCreateOptions`].
pub struct SchemaCreateOptionsV {
    pub name: Seq<char>,
    pub version: Seq<char>,
    pub attributes: Seq<Seq<char>>,
}

impl View for SchemaCreateOptions {
    type V = SchemaCreateOptionsV;

    open spec fn view(&self) -> SchemaCreateOptionsV {
        SchemaCreateOptionsV {
            name: self.name@,
            version: self.version@,
            attributes: self.attributes.deep_view(),
        }
    }
}

/// What a schema registration yields: the new schema id and the
/// attribute names the backend registered.
#[derive(Debug)]
pub struct SchemaCreateResponse {
    pub id: String,
    pub attr_names: Vec<String>,
}

/// Mathematical image of [`SchemaCreateResponse`].
pub struct SchemaCreateResponseV {
    pub id: Seq<char>,
    pub attr_names: Seq<Seq<char>>,
}

impl View for SchemaCreateResponse {
    type V = SchemaCreateResponseV;

    open spec fn view(&self) -> SchemaCreateResponseV {
        SchemaCreateResponseV { id: self.id@, attr_names: self.attr_names.deep_view() }
    }
}

/// A registered schema as the backend reports it.
#[derive(Debug)]
pub struct Schema {
    pub id: String,
    pub name: String,
    pub version: String,
    pub attr_names: Vec<String>,
}

/// Mathematical image of [`Schema`].
pub struct SchemaV {
    pub id: Seq<char>,
    pub name: Seq<char>,
    pub version: Seq<char>,
    pub attr_names: Seq<Seq<char>>,
}

impl View for Schema {
    type V = SchemaV;

    open spec fn view(&self) -> SchemaV {
        SchemaV {
            id: self.id@,
            name: self.name@,
            version: self.version@,
            attr_names: self.attr_names.deep_view(),
        }
    }
}

/// Response listing every schema id the backend knows.
#[derive(Debug)]
pub struct SchemaGetAllResponse {
    pub schema_ids: Vec<String>,
}

/// Mathematical image of [`SchemaGetAllResponse`].
pub struct SchemaGetAllResponseV {
    pub schema_ids: Seq<Seq<char>>,
}

impl View for SchemaGetAllResponse {
    type V = SchemaGetAllResponseV;

    open spec fn view(&self) -> SchemaGetAllResponseV {
        SchemaGetAllResponseV { schema_ids: self.schema_ids.deep_view() }
    }
}

/// The schema capability a backend must support.
pub trait SchemaModule: AgentTrace {
    /// Registers a schema. An empty attribute list is rejected
    /// client-side with `RequiredAttributes`: no backend call is issued
    /// and the call trace is unchanged. With a non-empty attribute list
    /// exactly one backend call is issued and recorded.
    fn create(&mut self, options: SchemaCreateOptions) -> (r: Result<SchemaCreateResponse, Error>)
        ensures
            options.attributes@.len() == 0 ==> final(self).calls() == old(self).calls() && r
                == Err::<SchemaCreateResponse, Error>(Error::RequiredAttributes),
            options.attributes@.len() > 0 ==> final(self).calls() == old(self).calls().push(
                AgentEvent::SchemaCreate { options: options@, out: call_out(r) },
            ),
    ;

    /// Gets a schema by id.
    fn get_by_id(&mut self, id: String) -> (r: Result<Schema, Error>)
        ensures
            final(self).calls() == old(self).calls().push(
                AgentEvent::SchemaGetById { id: id@, out: call_out(r) },
            ),
    ;

    /// Gets the ids of all registered schemas.
    fn get_all(&mut self) -> (r: Result<SchemaGetAllResponse, Error>)
        ensures
            final(self).calls() == old(self).calls().push(
                AgentEvent::SchemaGetAll { out: call_out(r) },
            ),
    ;
}

} // verus!
