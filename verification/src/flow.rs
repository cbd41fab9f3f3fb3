//! The shape shared by every operation that talks to the record store.

use vstd::prelude::*;
use crate::store::Request;

verus! {

/// Where an operation stands after one decision: it either asks the store
/// for something and waits in a state of its own, or it is done.
#[derive(Debug)]
pub enum Step<S, T, E> {
    /// Perform the request, then resume from the state with the reply.
    Ask(S, Request),
    /// The operation has ended with this result.
    Done(Result<T, E>),
}

} // verus!
