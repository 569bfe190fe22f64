//! The session token.

use vstd::prelude::*;
use std::marker::PhantomData;
use crate::runtime::{Object, Runtime};

verus! {

/// Proof that an interpreter session is active and held by the caller.
///
/// Every operation on the heap takes the token, so none can run outside a
/// session. The lifetime `'py` is that of the session: a handle carries it
/// too and cannot leave the scope in which the token was handed out.
pub struct Python<'py> {
    runtime: Runtime,
    session: PhantomData<&'py mut &'py ()>,
}

impl<'py> View for Python<'py> {
    type V = Seq<Object>;

    /// The session's heap.
    closed spec fn view(&self) -> Seq<Object> {
        self.runtime@
    }
}

impl<'py> Python<'py> {
    /// Runs `f` inside a fresh session, whose heap is empty, and ends the
    /// session when `f` returns.
    pub fn with_gil<R, F>(f: F) -> (r: R) where F: for <'a> FnOnce(&mut Python<'a>) -> R
        requires
            forall|py: &mut Python<'_>| (*py)@.len() == 0 ==> #[trigger] call_requires(f, (py,)),
        ensures
            exists|py: &mut Python<'_>| (*py)@.len() == 0 && #[trigger] call_ensures(f, (py,), r),
    {
        let mut py = Python { runtime: Runtime::new(), session: PhantomData };
        f(&mut py)
    }

    /// The session's heap, to look at.
    pub fn runtime(&self) -> (r: &Runtime)
        ensures
            r@ == self@,
    {
        &self.runtime
    }

    /// The session's heap, to work on.
    pub(crate) fn runtime_mut(&mut self) -> (r: &mut Runtime)
        ensures
            r@ == old(self)@,
            final(self)@ == final(r)@,
    {
        &mut self.runtime
    }
}

} // verus!
