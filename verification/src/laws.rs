//! What holds of every chain, whatever requests it is made of.
//!
//! The contracts of [`crate::chain::RequestChain`] say what one call does. The
//! proof functions of this file say what follows for calls taken together.

use crate::chain::{
    at, fee_private_function, fee_public_function, front, is_fee_call, outcome, views, with_back,
    without_front, RequestChain,
};
use crate::error::AuthorizationError;
use crate::request::{Request, RequestView};
use std::collections::VecDeque;
use vstd::prelude::*;

verus! {

/// The chain that is left when `next` has been called `count` times on `chain`.
pub open spec fn after_nexts(chain: Seq<RequestView>, count: nat) -> Seq<RequestView>
    decreases count,
{
    if count == 0 {
        chain
    } else {
        without_front(after_nexts(chain, (count - 1) as nat))
    }
}

/// `count` calls of `next` leave what lies behind the first `count` requests, and
/// nothing once the chain is used up.
pub proof fn lemma_after_nexts(chain: Seq<RequestView>, count: nat)
    ensures
        count <= chain.len() ==> after_nexts(chain, count) == chain.subrange(
            count as int,
            chain.len() as int,
        ),
        count > chain.len() ==> after_nexts(chain, count) == Seq::<RequestView>::empty(),
    decreases count,
{
    if count == 0 {
        assert(chain.subrange(0, chain.len() as int) =~= chain);
    } else {
        let before = (count - 1) as nat;
        lemma_after_nexts(chain, before);
        if count <= chain.len() {
            assert(without_front(chain.subrange(before as int, chain.len() as int))
                =~= chain.subrange(count as int, chain.len() as int));
        } else {
            assert(after_nexts(chain, before) =~= Seq::<RequestView>::empty());
        }
    }
}

/// Calling `next` again and again hands out the requests of a chain in their order,
/// each once and none left out: the call number `i`, counted from zero, gives the
/// request at position `i`. The call after the last request fails with `EmptyChain`
/// and finds the chain empty, and so does every later call.
pub proof fn law_next_drains_in_order(chain: Seq<RequestView>)
    ensures
        forall|i: nat|
            i < chain.len() ==> front(#[trigger] after_nexts(chain, i)) == Ok::<
                RequestView,
                AuthorizationError,
            >(chain[i as int]),
        forall|i: nat|
            i >= chain.len() ==> front(#[trigger] after_nexts(chain, i)) == Err::<
                RequestView,
                AuthorizationError,
            >(AuthorizationError::EmptyChain) && after_nexts(chain, i).len() == 0,
{
    assert forall|i: nat| i < chain.len() implies front(#[trigger] after_nexts(chain, i)) == Ok::<
        RequestView,
        AuthorizationError,
    >(chain[i as int]) by {
        lemma_after_nexts(chain, i);
    }
    assert forall|i: nat| i >= chain.len() implies front(#[trigger] after_nexts(chain, i)) == Err::<
        RequestView,
        AuthorizationError,
    >(AuthorizationError::EmptyChain) && after_nexts(chain, i).len() == 0 by {
        lemma_after_nexts(chain, i);
    }
}

/// A chain made of some requests is as long as they are many. A call of `next`
/// that finds a request makes the chain shorter by one; one that finds none
/// leaves the chain as it was. A call of `push` makes the chain longer by one, and
/// the new request is its last.
pub proof fn law_len_counts_requests(
    given: Seq<Request>,
    chain: Seq<RequestView>,
    request: RequestView,
)
    ensures
        views(given).len() == given.len(),
        front(chain) is Ok ==> without_front(chain).len() == chain.len() - 1,
        front(chain) is Err ==> without_front(chain) == chain,
        with_back(chain, request).len() == chain.len() + 1,
        with_back(chain, request).last() == request,
        with_back(chain, request).drop_last() == chain,
{
    assert(with_back(chain, request).drop_last() =~= chain);
}

/// What `peek_next` shows of a chain is what a call of `next` on that chain takes.
pub proof fn law_peek_then_next(
    chain: RequestChain,
    peeked: Result<Request, AuthorizationError>,
    taken: Result<Request, AuthorizationError>,
)
    requires
        call_ensures(RequestChain::peek_next, (&chain,), peeked),
        outcome(taken) == front(chain@),
    ensures
        outcome(peeked) == outcome(taken),
{
}

/// `get` reads the sequence that `to_vec_deque` copies: at a position inside the
/// chain it finds the request at that position of the copy, and at any other
/// position it fails with `IndexOutOfRange` of that position.
pub proof fn law_get_reads_the_sequence(
    chain: RequestChain,
    index: usize,
    found: Result<Request, AuthorizationError>,
    copy: VecDeque<Request>,
)
    requires
        call_ensures(RequestChain::get, (&chain, index), found),
        call_ensures(RequestChain::to_vec_deque, (&chain,), copy),
    ensures
        copy@.len() == chain@.len(),
        index < copy@.len() ==> outcome(found) == Ok::<RequestView, AuthorizationError>(
            copy@[index as int]@,
        ),
        index >= copy@.len() ==> outcome(found) == Err::<RequestView, AuthorizationError>(
            AuthorizationError::IndexOutOfRange(index),
        ),
{
    assert(views(copy@).len() == copy@.len());
}

/// A copy of a chain is equal to the chain when it is made and is a chain of its
/// own after that: a request pushed on either makes that one longer by one than
/// the other, which stays as it was.
pub proof fn law_copy_is_independent(
    source: RequestChain,
    replica: RequestChain,
    request: RequestView,
)
    requires
        cloned::<RequestChain>(source, replica),
    ensures
        replica@ == source@,
        with_back(source@, request).len() == replica@.len() + 1,
        with_back(replica@, request).len() == source@.len() + 1,
{
}

/// A fee call is a chain of exactly one request, and no chain is a private and a
/// public fee call at once.
pub proof fn law_fee_call_is_one_request(chain: Seq<RequestView>)
    ensures
        is_fee_call(chain, fee_private_function()) ==> chain.len() == 1,
        is_fee_call(chain, fee_public_function()) ==> chain.len() == 1,
        !(is_fee_call(chain, fee_private_function()) && is_fee_call(
            chain,
            fee_public_function(),
        )),
{
    reveal_strlit("fee_private");
    reveal_strlit("fee_public");
    assert(fee_private_function().len() == 11);
    assert(fee_public_function().len() == 10);
}

} // verus!
