//! Turn a single service into a service factory: every connection target is
//! answered with a duplicate handle to the one wrapped service.

use vstd::prelude::*;

verus! {

/// Turn a service into a make service.
#[derive(Debug)]
pub struct IntoMakeService<S> {
    /// The one wrapped service, handed out for every target.
    pub service: S,
}

impl<S> IntoMakeService<S> {
    /// Create a new [`IntoMakeService`] from a service.
    pub fn new(service: S) -> (r: Self)
        ensures
            r.service == service,
    {
        IntoMakeService { service }
    }
}

impl<S: Clone> IntoMakeService<S> {
    /// The factory step: whatever the target, answer immediately with a
    /// duplicate handle to the wrapped service. There is no inner factory to
    /// consult, and this step never fails.
    pub fn make(&self) -> (r: S)
        ensures
            cloned(self.service, r),
    {
        self.service.clone()
    }
}

} // verus!
