//! An ordered ledger of the program calls that one authorization session still has to run.
//!
//! A [`request::Request`] is one call of a named function of a named program. A
//! [`chain::RequestChain`] keeps such calls in the order in which they run, and an
//! [`authorization::Authorization`] shares one chain among the parts of a pipeline
//! that read it, consume it from the front and extend it at the back.

pub mod authorization;
pub mod chain;
pub mod error;
pub mod laws;
mod lock;
pub mod request;
