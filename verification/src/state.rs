//! The application state shared by the request handlers: the service
//! registry, held behind an `Arc` so that every handler sees the same one.

use vstd::prelude::*;
use std::sync::Arc;

verus! {

/// `Arc::clone`: claims the clone points at the same value, as its
/// documentation says (another pointer to the same allocation).
#[verifier::external_body]
fn arc_clone<M>(a: &Arc<M>) -> (r: Arc<M>)
    ensures
        *r == **a,
{
    a.clone()
}

/// The state the router hands to every handler: the registry of services.
pub struct AppState<M> {
    module: Arc<M>,
}

impl<M> AppState<M> {
    /// The handle on the registry that this state holds.
    pub closed spec fn shared(self) -> Arc<M> {
        self.module
    }

    /// The registry this state shares.
    pub open spec fn registry(self) -> M {
        *self.shared()
    }

    /// Wraps a registry so that handlers can share it.
    pub fn new(module: M) -> (s: Self)
        ensures
            s.registry() == module,
    {
        AppState { module: Arc::new(module) }
    }

    /// A shared handle on the registry, as the service extractors take it.
    pub fn module(&self) -> (m: Arc<M>)
        ensures
            *m == self.registry(),
    {
        arc_clone(&self.module)
    }
}

impl<M> Clone for AppState<M> {
    /// Another handle on the same state.
    fn clone(&self) -> (s: Self)
        ensures
            s.registry() == self.registry(),
    {
        AppState { module: arc_clone(&self.module) }
    }
}

impl<'a, M> From<&'a AppState<M>> for Arc<M> {
    /// A shared handle on the registry of the state.
    fn from(state: &'a AppState<M>) -> (m: Arc<M>) {
        arc_clone(&state.module)
    }
}

impl<'a, M> vstd::std_specs::convert::FromSpecImpl<&'a AppState<M>> for Arc<M> {
    open spec fn obeys_from_spec() -> bool {
        true
    }

    open spec fn from_spec(v: &'a AppState<M>) -> Arc<M> {
        v.shared()
    }
}

} // verus!
