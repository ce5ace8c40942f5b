//! The handle through which the parts of a pipeline share one chain of requests.
//!
//! Every method takes the lock for the length of one operation on the chain and
//! gives it up before it returns: a reading method shares the lock with other
//! readers, a changing method has it alone. To its caller an operation therefore
//! happens at one moment, between the operations of the other holders.
//!
//! What an operation does to a chain is stated and proved in [`crate::chain`]. A
//! contract here states which chain a new handle is made on, and of an operation
//! on a shared chain only what holds whatever the other holders did before the
//! lock was taken.

use crate::chain::{views, RequestChain};
use crate::error::AuthorizationError;
use crate::lock::{acquire_read, acquire_write, locked, locked_mut, made_around, new_lock};
use crate::request::{Request, RequestView};
use std::collections::VecDeque;
use std::sync::Arc;
use vstd::prelude::*;
use vstd::std_specs::convert::FromSpecImpl;

verus! {

/// A handle on a chain of requests that several holders share.
///
/// A clone of a handle is a handle on the same chain: what one holder takes or adds,
/// all see. Only `replicate` makes a chain of its own.
#[derive(Clone)]
pub struct Authorization {
    requests: Arc<parking_lot::RwLock<RequestChain>>,
}

impl From<Vec<Request>> for Authorization {
    /// A handle on a new chain of the given requests, first to last.
    fn from(requests: Vec<Request>) -> (authorization: Authorization)
        ensures
            authorization.seeded_with() == views(requests@),
    {
        Authorization::sharing(RequestChain::new(requests))
    }
}

impl FromSpecImpl<Vec<Request>> for Authorization {
    open spec fn obeys_from_spec() -> bool {
        false
    }

    open spec fn from_spec(requests: Vec<Request>) -> Authorization {
        arbitrary()
    }
}

impl From<Request> for Authorization {
    /// A handle on a new chain of one request.
    fn from(request: Request) -> (authorization: Authorization)
        ensures
            authorization.seeded_with() == seq![request@],
    {
        let mut requests: Vec<Request> = Vec::new();
        requests.push(request);
        assert(views(requests@) =~= seq![request@]);
        Authorization::sharing(RequestChain::new(requests))
    }
}

impl FromSpecImpl<Request> for Authorization {
    open spec fn obeys_from_spec() -> bool {
        false
    }

    open spec fn from_spec(request: Request) -> Authorization {
        arbitrary()
    }
}

impl<'a> From<&'a Request> for Authorization {
    /// A handle on a new chain of a copy of one request.
    fn from(request: &'a Request) -> (authorization: Authorization)
        ensures
            authorization.seeded_with() == seq![request@],
    {
        let mut requests: Vec<Request> = Vec::new();
        requests.push(request.clone());
        assert(views(requests@) =~= seq![request@]);
        Authorization::sharing(RequestChain::new(requests))
    }
}

impl<'a> FromSpecImpl<&'a Request> for Authorization {
    open spec fn obeys_from_spec() -> bool {
        false
    }

    open spec fn from_spec(request: &'a Request) -> Authorization {
        arbitrary()
    }
}

impl Authorization {
    /// The chain that the handle was made on: the requests that its chain held, in
    /// their order, before any holder took or added one. The clones of a handle
    /// share it.
    pub closed spec fn seeded_with(&self) -> Seq<RequestView> {
        made_around(*self.requests)
    }

    /// A handle on `chain`, behind a lock of its own.
    fn sharing(chain: RequestChain) -> (authorization: Authorization)
        ensures
            authorization.seeded_with() == chain@,
    {
        Authorization { requests: Arc::new(new_lock(chain)) }
    }

    /// Whether the chain is, at the moment of the call, a single call of
    /// `credits.aleo/fee_private`.
    pub fn is_fee_private(&self) -> (fee: bool) {
        let guard = acquire_read(&self.requests);
        locked(&guard).is_fee_private()
    }

    /// Whether the chain is, at the moment of the call, a single call of
    /// `credits.aleo/fee_public`.
    pub fn is_fee_public(&self) -> (fee: bool) {
        let guard = acquire_read(&self.requests);
        locked(&guard).is_fee_public()
    }

    /// A handle on a chain of its own, which holds copies of the requests that this
    /// chain holds at the moment of the call. What happens to either chain later
    /// does not reach the other.
    pub fn replicate(&self) -> (replica: Authorization) {
        let guard = acquire_read(&self.requests);
        let copy = locked(&guard).clone();
        Authorization::sharing(copy)
    }

    /// A copy of the request that runs next. The chain keeps it.
    pub fn peek_next(&self) -> (next: Result<Request, AuthorizationError>)
        ensures
            next matches Err(error) ==> error == AuthorizationError::EmptyChain,
    {
        let guard = acquire_read(&self.requests);
        locked(&guard).peek_next()
    }

    /// Takes the request that runs next out of the chain. Of several holders that
    /// call this at once, each gets a request of its own, in the order of the chain.
    pub fn next(&self) -> (next: Result<Request, AuthorizationError>)
        ensures
            next matches Err(error) ==> error == AuthorizationError::EmptyChain,
    {
        let mut guard = acquire_write(&self.requests);
        locked_mut(&mut guard).next()
    }

    /// A copy of the request at `index`, counted from zero. The chain is not changed.
    pub fn get(&self, index: usize) -> (found: Result<Request, AuthorizationError>)
        ensures
            found matches Err(error) ==> error == AuthorizationError::IndexOutOfRange(index),
    {
        let guard = acquire_read(&self.requests);
        locked(&guard).get(index)
    }

    /// How many requests the chain holds at the moment of the call.
    pub fn len(&self) -> (n: usize) {
        let guard = acquire_read(&self.requests);
        locked(&guard).len()
    }

    /// Whether the chain holds no request at the moment of the call.
    pub fn is_empty(&self) -> (empty: bool) {
        let guard = acquire_read(&self.requests);
        locked(&guard).is_empty()
    }

    /// Puts `request` behind the last request of the chain. Every holder sees it
    /// once the call has returned.
    pub fn push(&self, request: Request) {
        let mut guard = acquire_write(&self.requests);
        locked_mut(&mut guard).push(request);
    }

    /// A copy of the requests that the chain holds at the moment of the call, first
    /// to last. The chain is not changed.
    pub fn to_vec_deque(&self) -> (copy: VecDeque<Request>) {
        let guard = acquire_read(&self.requests);
        locked(&guard).to_vec_deque()
    }
}

} // verus!
