//! Prevents mutations that arrive by another HTTP method than POST.

use crate::services::{Context, Error, ExecutionRequest, ExecutionResponse, Header, Method, Object, Response};
use std::ops::ControlFlow;
use vstd::prelude::*;

verus! {

/// The HTTP status code of a refused method.
pub const METHOD_NOT_ALLOWED: u16 = 405;

/// The number of `http::StatusCode::METHOD_NOT_ALLOWED`, read with
/// `StatusCode::as_u16`. The claim is that http defines this status as 405.
#[verifier::external_body]
fn method_not_allowed() -> (code: u16)
    ensures
        code == METHOD_NOT_ALLOWED,
{
    http::StatusCode::METHOD_NOT_ALLOWED.as_u16()
}

/// The token of `http::Method::POST`, read with `Method::as_str`. The claim
/// is that http spells the method `POST`.
#[verifier::external_body]
fn post_token() -> (token: String)
    ensures
        token@ == "POST"@,
{
    http::Method::POST.as_str().to_owned()
}

/// Whether the guard refuses `req`: it was not sent by POST and its plan holds
/// a mutation.
pub open spec fn refuses(req: ExecutionRequest) -> bool {
    req.originating_request.method != Method::Post && req.query_plan.spec_contains_mutations()
}

/// Whether `res` is the refusal sent for a request with `context`: status
/// 405, the one header `Allow: POST`, no data, the single error that says
/// mutations need POST, without locations, path or extensions, no extensions
/// of its own, and the request's context.
pub open spec fn is_refusal(res: ExecutionResponse, context: Context) -> bool {
    &&& res.status == METHOD_NOT_ALLOWED
    &&& res.headers@.len() == 1
    &&& res.headers@[0].name@ == "Allow"@
    &&& res.headers@[0].value@ == "POST"@
    &&& res.body.data is None
    &&& res.body.errors@.len() == 1
    &&& res.body.errors@[0].message@ == "Mutations can only be sent over HTTP POST"@
    &&& res.body.errors@[0].locations@.len() == 0
    &&& res.body.errors@[0].path is None
    &&& res.body.errors@[0].extensions.entries@.len() == 0
    &&& res.body.extensions.entries@.len() == 0
    &&& res.context == context
}

/// The checkpoint: a request that the guard refuses is answered at once,
/// every other request goes on unchanged.
pub fn checkpoint(req: ExecutionRequest) -> (flow: ControlFlow<ExecutionResponse, ExecutionRequest>)
    ensures
        match flow {
            ControlFlow::Break(res) => refuses(req) && is_refusal(res, req.context),
            ControlFlow::Continue(next) => !refuses(req) && next == req,
        },
{
    if req.originating_request.method != Method::Post && req.query_plan.contains_mutations() {
        let mut errors: Vec<Error> = Vec::new();
        errors.push(
            Error {
                message: "Mutations can only be sent over HTTP POST".to_owned(),
                locations: Vec::new(),
                path: None,
                extensions: Object::empty(),
            },
        );
        let mut headers: Vec<Header> = Vec::new();
        headers.push(Header { name: "Allow".to_owned(), value: post_token() });
        let res = ExecutionResponse {
            status: method_not_allowed(),
            headers,
            body: Response { data: None, errors, extensions: Object::empty() },
            context: req.context,
        };
        ControlFlow::Break(res)
    } else {
        ControlFlow::Continue(req)
    }
}

/// The layer that puts the guard in front of an execution service.
#[derive(Debug)]
pub struct AllowOnlyHttpPostMutationsLayer {}

impl Default for AllowOnlyHttpPostMutationsLayer {
    fn default() -> (layer: Self) {
        AllowOnlyHttpPostMutationsLayer {  }
    }
}

impl AllowOnlyHttpPostMutationsLayer {
    /// Puts the guard in front of `service`.
    pub fn layer<S>(&self, service: S) -> (guarded: AllowOnlyHttpPostMutationsService<S>)
        ensures
            guarded.inner() == service,
    {
        AllowOnlyHttpPostMutationsService { inner: service }
    }
}

/// An execution service behind the guard.
pub struct AllowOnlyHttpPostMutationsService<S> {
    inner: S,
}

impl<S> AllowOnlyHttpPostMutationsService<S> {
    /// The service behind the guard.
    pub closed spec fn inner(&self) -> S {
        self.inner
    }

    /// The service behind the guard, for the caller to ask whether it is
    /// ready.
    pub fn inner_mut(&mut self) -> (inner: &mut S)
        ensures
            *inner == old(self).inner(),
            final(self).inner() == *final(inner),
    {
        &mut self.inner
    }

    /// Handles one request. A refused request is answered by `respond` with
    /// the refusal, and the inner service is not called. Every other request
    /// is handed unchanged to `dispatch`, once, with the inner service.
    pub fn call<Out, D, A>(&mut self, req: ExecutionRequest, dispatch: D, respond: A) -> (out: Out) where
        D: FnOnce(&mut S, ExecutionRequest) -> Out,
        A: FnOnce(ExecutionResponse) -> Out,

        requires
            !refuses(req) ==> forall|inner: &mut S| call_requires(dispatch, (inner, req)),
            forall|res: ExecutionResponse| is_refusal(res, req.context) ==> call_requires(respond, (res,)),
        ensures
            refuses(req) ==> final(self).inner() == old(self).inner() && exists|res: ExecutionResponse|
                is_refusal(res, req.context) && #[trigger] call_ensures(respond, (res,), out),
            !refuses(req) ==> exists|inner: &mut S|
                {
                    &&& *inner == old(self).inner()
                    &&& *final(inner) == final(self).inner()
                    &&& #[trigger] call_ensures(dispatch, (inner, req), out)
                },
    {
        match checkpoint(req) {
            ControlFlow::Break(res) => respond(res),
            ControlFlow::Continue(next) => dispatch(&mut self.inner, next),
        }
    }
}

} // verus!
