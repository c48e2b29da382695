//! Maps the future of a service with a value taken from the request.
//!
//! Two functions make the layer: `ctx_fn` reads something out of the request
//! before the request is handed on, and `map_fn` gets that value together with
//! the future that the inner service answered with, and gives the future that
//! the caller sees.

use vstd::prelude::*;
use vstd::pervasive::cloned;

verus! {

/// The layer: the two functions, to be put around any service.
#[derive(Clone)]
pub struct MapFutureWithContextLayer<C, F> {
    ctx_fn: C,
    map_fn: F,
}

impl<C, F> MapFutureWithContextLayer<C, F> {
    /// The function that reads the request.
    pub closed spec fn ctx_fn(&self) -> C {
        self.ctx_fn
    }

    /// The function that maps the future.
    pub closed spec fn map_fn(&self) -> F {
        self.map_fn
    }

    /// A layer of the two functions.
    pub fn new(ctx_fn: C, map_fn: F) -> (layer: Self)
        ensures
            layer.ctx_fn() == ctx_fn,
            layer.map_fn() == map_fn,
    {
        MapFutureWithContextLayer { ctx_fn, map_fn }
    }

    /// Puts the layer around `inner`: the service gets a clone of each of the
    /// two functions.
    pub fn layer<S>(&self, inner: S) -> (service: MapFutureWithContextService<S, C, F>) where
        C: Clone,
        F: Clone,

        ensures
            service.inner() == inner,
            cloned(self.ctx_fn(), service.ctx_fn()),
            cloned(self.map_fn(), service.map_fn()),
    {
        MapFutureWithContextService::new(inner, self.ctx_fn.clone(), self.map_fn.clone())
    }
}

/// A service with the two functions around it.
pub struct MapFutureWithContextService<S, C, F> {
    inner: S,
    ctx_fn: C,
    map_fn: F,
}

impl<S, C, F> MapFutureWithContextService<S, C, F> {
    /// The service inside.
    pub closed spec fn inner(&self) -> S {
        self.inner
    }

    /// The function that reads the request.
    pub closed spec fn ctx_fn(&self) -> C {
        self.ctx_fn
    }

    /// The function that maps the future.
    pub closed spec fn map_fn(&self) -> F {
        self.map_fn
    }

    /// The service `inner` with the two functions around it.
    pub fn new(inner: S, ctx_fn: C, map_fn: F) -> (service: Self) where C: Clone, F: Clone
        ensures
            service.inner() == inner,
            service.ctx_fn() == ctx_fn,
            service.map_fn() == map_fn,
    {
        MapFutureWithContextService { inner, ctx_fn, map_fn }
    }

    /// The service inside, for the caller to ask whether it is ready:
    /// readiness is that of the inner service.
    pub fn inner_mut(&mut self) -> (inner: &mut S)
        ensures
            *inner == old(self).inner(),
            final(self).inner() == *final(inner),
            final(self).ctx_fn() == old(self).ctx_fn(),
            final(self).map_fn() == old(self).map_fn(),
    {
        &mut self.inner
    }

    /// Handles one request. First `ctx_fn` reads the request, which it cannot
    /// change. Then `dispatch` hands the request, as it came, to the inner
    /// service and gives that service's future. Last `map_fn` gets what
    /// `ctx_fn` read and that future; what it gives is the answer.
    pub fn call<R, Ctx, Fut, Out, D>(&mut self, req: R, dispatch: D) -> (out: Out) where
        C: FnMut(&R) -> Ctx,
        F: FnMut(Ctx, Fut) -> Out,
        D: FnOnce(&mut S, R) -> Fut,

        requires
            call_requires(old(self).ctx_fn(), (&req,)),
            forall|inner: &mut S| call_requires(dispatch, (inner, req)),
            forall|ctx: Ctx, fut: Fut, inner: &mut S|
                call_ensures(old(self).ctx_fn(), (&req,), ctx) && #[trigger] call_ensures(
                    dispatch,
                    (inner, req),
                    fut,
                ) ==> #[trigger] call_requires(old(self).map_fn(), (ctx, fut)),
        ensures
            final(self).ctx_fn() == old(self).ctx_fn(),
            final(self).map_fn() == old(self).map_fn(),
            exists|ctx: Ctx, fut: Fut, inner: &mut S|
                {
                    &&& *inner == old(self).inner()
                    &&& *final(inner) == final(self).inner()
                    &&& call_ensures(old(self).ctx_fn(), (&req,), ctx)
                    &&& #[trigger] call_ensures(dispatch, (inner, req), fut)
                    &&& #[trigger] call_ensures(old(self).map_fn(), (ctx, fut), out)
                },
    {
        let ctx = (self.ctx_fn)(&req);
        assert(old(self).map_fn() == self.map_fn);
        let fut = dispatch(&mut self.inner, req);
        (self.map_fn)(ctx, fut)
    }
}

} // verus!
