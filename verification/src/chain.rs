//! The chain of pending requests, in the order in which they run.

use crate::error::AuthorizationError;
use crate::request::{Request, RequestView};
use std::collections::VecDeque;
use vstd::prelude::*;

verus! {

/// The program that holds the two fee functions.
pub open spec fn fee_program() -> Seq<char> {
    "credits.aleo"@
}

/// The function that pays a fee from a private record.
pub open spec fn fee_private_function() -> Seq<char> {
    "fee_private"@
}

/// The function that pays a fee from a public balance.
pub open spec fn fee_public_function() -> Seq<char> {
    "fee_public"@
}

/// What each request of a sequence is to the contracts, in the same order.
pub open spec fn views(requests: Seq<Request>) -> Seq<RequestView> {
    requests.map_values(|request: Request| request@)
}

/// What a result is to the contracts: the request by its view, the error as it is.
pub open spec fn outcome(result: Result<Request, AuthorizationError>) -> Result<
    RequestView,
    AuthorizationError,
> {
    match result {
        Ok(request) => Ok(request@),
        Err(error) => Err(error),
    }
}

/// The request that runs next: the first of the chain, if it has one.
pub open spec fn front(chain: Seq<RequestView>) -> Result<RequestView, AuthorizationError> {
    if chain.len() > 0 {
        Ok(chain[0])
    } else {
        Err(AuthorizationError::EmptyChain)
    }
}

/// The chain once its first request is taken. An empty chain stays as it is.
pub open spec fn without_front(chain: Seq<RequestView>) -> Seq<RequestView> {
    if chain.len() > 0 {
        chain.subrange(1, chain.len() as int)
    } else {
        chain
    }
}

/// The chain with one more request behind its last.
pub open spec fn with_back(chain: Seq<RequestView>, request: RequestView) -> Seq<RequestView> {
    chain.push(request)
}

/// The request at a position counted from zero, if the chain reaches that far.
pub open spec fn at(chain: Seq<RequestView>, index: usize) -> Result<
    RequestView,
    AuthorizationError,
> {
    if index < chain.len() {
        Ok(chain[index as int])
    } else {
        Err(AuthorizationError::IndexOutOfRange(index))
    }
}

/// Whether the chain is a single call of `function_name` of the fee program.
pub open spec fn is_fee_call(chain: Seq<RequestView>, function_name: Seq<char>) -> bool {
    &&& chain.len() == 1
    &&& chain[0].program_id == fee_program()
    &&& chain[0].function_name == function_name
}

/// An ordered sequence of requests. The order is the order of execution, and a
/// request may occur more than once.
pub struct RequestChain {
    requests: VecDeque<Request>,
}

impl View for RequestChain {
    type V = Seq<RequestView>;

    closed spec fn view(&self) -> Seq<RequestView> {
        views(self.requests@)
    }
}

impl RequestChain {
    /// The chain of the given requests, first to last.
    pub fn new(requests: Vec<Request>) -> (chain: RequestChain)
        ensures
            chain@ == views(requests@),
    {
        let ghost given = requests@;
        let mut rest = requests;
        let mut queue: VecDeque<Request> = VecDeque::new();
        while rest.len() > 0
            invariant
                rest@ + queue@ == given,
            decreases rest.len(),
        {
            let ghost before = rest@;
            let ghost behind = queue@;
            let request = rest.pop().unwrap();
            queue.push_front(request);
            assert(rest@ + queue@ =~= before + behind);
        }
        assert(queue@ =~= given);
        RequestChain { requests: queue }
    }

    /// How many requests the chain holds.
    pub fn len(&self) -> (n: usize)
        ensures
            n == self@.len(),
    {
        self.requests.len()
    }

    /// Whether the chain holds no request.
    pub fn is_empty(&self) -> (empty: bool)
        ensures
            empty == (self@.len() == 0),
    {
        self.requests.len() == 0
    }

    /// A copy of the request that runs next. The chain keeps it.
    pub fn peek_next(&self) -> (next: Result<Request, AuthorizationError>)
        ensures
            outcome(next) == front(self@),
    {
        if self.requests.len() > 0 {
            Ok(self.requests[0].clone())
        } else {
            Err(AuthorizationError::EmptyChain)
        }
    }

    /// Takes the request that runs next out of the chain. An empty chain is left
    /// as it was.
    pub fn next(&mut self) -> (next: Result<Request, AuthorizationError>)
        ensures
            outcome(next) == front(old(self)@),
            final(self)@ == without_front(old(self)@),
    {
        match self.requests.pop_front() {
            Some(request) => {
                assert(self@ =~= without_front(old(self)@));
                Ok(request)
            },
            None => Err(AuthorizationError::EmptyChain),
        }
    }

    /// A copy of the request at `index`, counted from zero. The chain is not changed.
    pub fn get(&self, index: usize) -> (found: Result<Request, AuthorizationError>)
        ensures
            outcome(found) == at(self@, index),
    {
        if index < self.requests.len() {
            Ok(self.requests[index].clone())
        } else {
            Err(AuthorizationError::IndexOutOfRange(index))
        }
    }

    /// Puts `request` behind the last request of the chain.
    pub fn push(&mut self, request: Request)
        ensures
            final(self)@ == with_back(old(self)@, request@),
    {
        self.requests.push_back(request);
        assert(self@ =~= with_back(old(self)@, request@));
    }

    /// A copy of the requests of the chain, first to last. The chain is not changed.
    pub fn to_vec_deque(&self) -> (copy: VecDeque<Request>)
        ensures
            views(copy@) == self@,
    {
        let copy = self.requests.clone();
        assert(views(copy@) =~= views(self.requests@));
        copy
    }

    /// Whether the chain is a single call of `function_name` of the fee program.
    fn is_single_fee_call(&self, function_name: &str) -> (fee: bool)
        ensures
            fee == is_fee_call(self@, function_name@),
    {
        match self.requests.len() {
            1 => {
                let request = &self.requests[0];
                let program_id = "credits.aleo".to_owned();
                let function_name = function_name.to_owned();
                *request.program_id() == program_id && *request.function_name() == function_name
            },
            _ => false,
        }
    }

    /// Whether the chain is a single call of `credits.aleo/fee_private`.
    pub fn is_fee_private(&self) -> (fee: bool)
        ensures
            fee == is_fee_call(self@, fee_private_function()),
    {
        self.is_single_fee_call("fee_private")
    }

    /// Whether the chain is a single call of `credits.aleo/fee_public`.
    pub fn is_fee_public(&self) -> (fee: bool)
        ensures
            fee == is_fee_call(self@, fee_public_function()),
    {
        self.is_single_fee_call("fee_public")
    }
}

impl Clone for RequestChain {
    /// A chain of its own with copies of the same requests in the same order.
    fn clone(&self) -> (copy: RequestChain)
        ensures
            copy@ == self@,
    {
        RequestChain { requests: self.to_vec_deque() }
    }
}

} // verus!
