//! The long-lived connection that short-lived handles depend on.
use std::sync::Arc;

use vstd::prelude::*;

verus! {

/// A session: a shared reference to the native session object `N`.
///
/// Handles derived from operations on a session (futures, results, error
/// details) each keep a clone of it, so the native object is released only
/// when the last of them is dropped, never before a handle that depends on it.
pub struct Session<N> {
    native: Arc<N>,
}

impl<N> View for Session<N> {
    type V = N;

    closed spec fn view(&self) -> N {
        *self.native
    }
}

impl<N> Session<N> {
    /// Takes ownership of a native session object.
    pub fn new(native: N) -> (r: Session<N>)
        ensures
            r@ == native,
    {
        Session { native: Arc::new(native) }
    }

    /// The native session object.
    pub fn inner(&self) -> (r: &N)
        ensures
            *r == self@,
    {
        &*self.native
    }

    /// Another reference to the same native session object.
    pub fn share(&self) -> (r: Session<N>)
        ensures
            r@ == self@,
    {
        Session { native: Arc::clone(&self.native) }
    }
}

} // verus!
