//! The ways in which a read of the chain can fail.

use vstd::prelude::*;

verus! {

/// Why an operation on a chain of requests handed nothing back.
#[derive(Clone, Copy, Debug, PartialEq, Eq, Structural)]
pub enum AuthorizationError {
    /// The chain holds no request, so there is no next one.
    EmptyChain,
    /// The chain holds no request at this position.
    IndexOutOfRange(usize),
}

} // verus!
