//! Context-injection middleware: a service pair that should be used as the
//! outermost layer in a stack of services. It stamps each plain inbound
//! request with a correlation identifier and passes the request on, paired
//! with a freshly built context, to a wrapped service.

use crate::context::Push;
use crate::xspan::span_derived;
use crate::xspan::XSpanIdString;
use core::marker::PhantomData;
use vstd::prelude::*;

verus! {

/// Factory wrapper: produces [`AddContextService`] instances by wrapping what
/// an inner factory produces, one per connection target.
#[derive(Debug)]
pub struct AddContextMakeService<T, C> {
    /// The wrapped inner factory.
    pub inner: T,
    /// Carries the context type the produced services build.
    pub marker: PhantomData<C>,
}

impl<T, C> AddContextMakeService<T, C> {
    /// Create a new AddContextMakeService struct wrapping a value.
    pub fn new(inner: T) -> (r: Self)
        ensures
            r.inner == inner,
    {
        AddContextMakeService { inner, marker: PhantomData }
    }

    /// The factory step applied to what the inner factory produced: a
    /// produced inner service is wrapped in the request-level middleware, and
    /// an inner error is propagated unchanged.
    pub fn wrap<S, E>(&self, produced: Result<S, E>) -> (r: Result<AddContextService<S, C>, E>)
        ensures
            match produced {
                Ok(s) => r matches Ok(w) && w.inner == s,
                Err(e) => r matches Err(e2) && e2 == e,
            },
    {
        match produced {
            Ok(s) => Ok(AddContextService::new(s)),
            Err(e) => Err(e),
        }
    }
}

/// Request-level middleware: builds the context for each request. Not
/// usually constructed directly; [`AddContextMakeService`] creates instances
/// as needed.
#[derive(Debug)]
pub struct AddContextService<T, C> {
    /// The wrapped inner service.
    pub inner: T,
    /// Carries the context type this service builds.
    pub marker: PhantomData<C>,
}

impl<T: Clone, C> Clone for AddContextService<T, C> {
    fn clone(&self) -> (r: Self)
        ensures
            cloned(self.inner, r.inner),
    {
        AddContextService { inner: self.inner.clone(), marker: PhantomData }
    }
}

impl<T, C> AddContextService<T, C> {
    /// Create a new AddContextService struct wrapping a value.
    pub fn new(inner: T) -> (r: Self)
        ensures
            r.inner == inner,
    {
        AddContextService { inner, marker: PhantomData }
    }
}

impl<T, C: Push<XSpanIdString>> AddContextService<T, C> {
    /// The request-level step of the context-injection middleware: derive the
    /// correlation id from the request and push it onto the supplied base
    /// container, yielding the one-frame context forwarded with the request.
    /// Exactly one frame is added, the identifier is never empty, and the
    /// request itself is neither inspected further nor changed.
    pub fn context_for<B>(req: &hyper::Request<B>, base: C) -> (r: C::Result)
        ensures
            exists|id: XSpanIdString| id@.len() > 0 && r == #[trigger] base.pushed(id),
    {
        let id = XSpanIdString::get_or_generate(req);
        base.push(id)
    }

    /// As [`Self::context_for`], stated against the request's header map: the
    /// pushed identifier is the non-empty readable `X-Span-ID` value when
    /// there is one, and freshly generated otherwise.
    pub fn context_from_headers(headers: &hyper::HeaderMap, base: C) -> (r: C::Result)
        ensures
            exists|id: XSpanIdString|
                span_derived(*headers, id@) && r == #[trigger] base.pushed(id),
    {
        let id = XSpanIdString::from_header_map(headers);
        base.push(id)
    }
}

} // verus!
