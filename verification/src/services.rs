//! The requests and responses that pass through the execution stage of the
//! pipeline, as plain values.

use crate::query_plan::QueryPlan;
use vstd::prelude::*;

verus! {

/// An HTTP request method.
#[derive(Clone, Copy, Debug, PartialEq, Eq, Hash, Structural)]
pub enum Method {
    Get,
    Post,
    Put,
    Delete,
    Head,
    Options,
    Connect,
    Patch,
    Trace,
    /// A method that HTTP does not define.
    Extension,
}

/// One header line.
#[derive(Debug, PartialEq, Eq)]
pub struct Header {
    pub name: String,
    pub value: String,
}

/// A JSON object, as its members in order: each a name and a JSON text.
#[derive(Debug, PartialEq, Eq)]
pub struct Object {
    pub entries: Vec<(String, String)>,
}

impl Object {
    /// The object without members.
    pub fn empty() -> (object: Self)
        ensures
            object.entries@.len() == 0,
    {
        Object { entries: Vec::new() }
    }
}

/// What the stages of the pipeline share while they handle one request.
#[derive(Debug, PartialEq, Eq)]
pub struct Context {
    pub entries: Vec<(String, String)>,
}

/// The HTTP request that a client sent.
#[derive(Debug, PartialEq, Eq)]
pub struct HttpRequest {
    pub method: Method,
    pub uri: String,
    pub headers: Vec<Header>,
    /// The GraphQL request, as JSON text.
    pub body: String,
}

/// A place in a GraphQL document.
#[derive(Clone, Copy, Debug, PartialEq, Eq, Structural)]
pub struct Location {
    pub line: u32,
    pub column: u32,
}

/// A GraphQL error.
#[derive(Debug, PartialEq, Eq)]
pub struct Error {
    /// What went wrong.
    pub message: String,
    /// The places in the document that the error is about.
    pub locations: Vec<Location>,
    /// The path of the response field that the error is about, if any.
    pub path: Option<String>,
    /// Further members of the error.
    pub extensions: Object,
}

/// The body of a GraphQL response.
#[derive(Debug, PartialEq, Eq)]
pub struct Response {
    /// The data, as JSON text, where the operation gave any.
    pub data: Option<String>,
    pub errors: Vec<Error>,
    pub extensions: Object,
}

/// A request for the execution of a query plan.
#[derive(Debug, PartialEq, Eq)]
pub struct ExecutionRequest {
    /// The HTTP request that asked for it.
    pub originating_request: HttpRequest,
    pub query_plan: QueryPlan,
    pub context: Context,
}

/// The answer to an [`ExecutionRequest`].
#[derive(Debug, PartialEq, Eq)]
pub struct ExecutionResponse {
    /// The HTTP status code.
    pub status: u16,
    pub headers: Vec<Header>,
    pub body: Response,
    pub context: Context,
}

} // verus!
