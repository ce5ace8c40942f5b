//! The reader-writer lock that guards a shared chain.
//!
//! Nothing in this file is proved. It declares the lock of `parking_lot` and wraps
//! the calls into it. Of a new lock it is claimed which chain it was made around.
//! No wrapper promises anything of the chain that a guard gives access to: what a
//! thread finds behind the lock is whatever the other holders of the lock left there.
//!
//! A thread that asks for a lock of which it already holds a guard may wait for
//! ever. The callers in this crate take one guard for one operation on the chain
//! and drop it before they return, and no guard leaves the crate.

use crate::chain::RequestChain;
use crate::request::RequestView;
use vstd::prelude::*;

verus! {

/// `parking_lot::RawRwLock`, the lock word itself.
#[verifier::external_type_specification]
#[verifier::external_body]
pub struct ExRawRwLock(parking_lot::RawRwLock);

/// `lock_api::RwLock`, of which `parking_lot::RwLock<T>` is the instance over
/// `parking_lot::RawRwLock`.
#[verifier::external_type_specification]
#[verifier::external_body]
#[verifier::reject_recursive_types(R)]
#[verifier::reject_recursive_types(T)]
pub struct ExRwLock<R, T: ?Sized>(parking_lot::lock_api::RwLock<R, T>);

/// Holds a `parking_lot::RwLockReadGuard`: shared access to the chain behind a lock,
/// given up when the value is dropped.
#[verifier::external_body]
pub(crate) struct ReadGuard<'a> {
    guard: parking_lot::RwLockReadGuard<'a, RequestChain>,
}

/// Holds a `parking_lot::RwLockWriteGuard`: exclusive access to the chain behind a
/// lock, given up when the value is dropped.
#[verifier::external_body]
pub(crate) struct WriteGuard<'a> {
    guard: parking_lot::RwLockWriteGuard<'a, RequestChain>,
}

/// The chain that a lock was made around: what `parking_lot::RwLock::new` was given
/// when it made the lock. It is a fact of how the lock began, and says nothing of
/// what the lock holds once a holder has changed the chain.
pub uninterp spec fn made_around(lock: parking_lot::RwLock<RequestChain>) -> Seq<RequestView>;

/// Calls `parking_lot::RwLock::new`, which puts `chain` behind a new, unlocked lock.
/// The claim is that the lock was made around this chain and no other.
#[verifier::external_body]
pub(crate) fn new_lock(chain: RequestChain) -> (lock: parking_lot::RwLock<RequestChain>)
    ensures
        made_around(lock) == chain@,
{
    parking_lot::RwLock::new(chain)
}

/// Calls `parking_lot::RwLock::read`, which waits until no writer holds the lock or
/// waits for it. Nothing is claimed of the chain that the guard gives access to.
#[verifier::external_body]
pub(crate) fn acquire_read<'a>(lock: &'a parking_lot::RwLock<RequestChain>) -> (guard: ReadGuard<'a>) {
    ReadGuard { guard: lock.read() }
}

/// Calls `parking_lot::RwLock::write`, which waits until nobody else holds the lock.
/// Nothing is claimed of the chain that the guard gives access to.
#[verifier::external_body]
pub(crate) fn acquire_write<'a>(lock: &'a parking_lot::RwLock<RequestChain>) -> (guard: WriteGuard<'a>) {
    WriteGuard { guard: lock.write() }
}

/// Calls `deref` of `parking_lot::RwLockReadGuard`: the chain behind the lock, to
/// read. Nothing is claimed of it.
#[verifier::external_body]
pub(crate) fn locked<'a, 'b>(guard: &'b ReadGuard<'a>) -> (chain: &'b RequestChain) {
    &*guard.guard
}

/// Calls `deref_mut` of `parking_lot::RwLockWriteGuard`: the chain behind the lock,
/// to change. Nothing is claimed of it.
#[verifier::external_body]
pub(crate) fn locked_mut<'a, 'b>(guard: &'b mut WriteGuard<'a>) -> (chain: &'b mut RequestChain) {
    &mut *guard.guard
}

} // verus!
