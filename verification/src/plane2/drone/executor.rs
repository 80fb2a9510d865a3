//! The executor's listener for backend metrics.
use vstd::prelude::*;

verus! {

/// A function that takes in the metrics of backends as they come.
pub struct MetricsListener<F>(F);

impl<F> MetricsListener<F> {
    /// The function held.
    pub closed spec fn func(&self) -> F {
        self.0
    }

    pub fn new(value: F) -> (r: Self)
        ensures
            r.func() == value,
    {
        MetricsListener(value)
    }

    /// Passes one metrics message to the function held.
    pub fn call<M>(&self, msg: M)
        where
            F: Fn(M),
        requires
            call_requires(self.func(), (msg,)),
    {
        (self.0)(msg)
    }
}

} // verus!
