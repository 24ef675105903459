//! The ways in which a receive operation fails.

use vstd::prelude::*;

verus! {

/// Why an operation of the receive engine failed.
#[derive(Clone, Copy, Debug, PartialEq, Eq, Structural)]
pub enum ReceiveError {
    /// The timeout is neither the atom `infinity` nor a non-negative integer.
    BadTimeoutValue,
    /// The operation met a state that the protocol rules out.
    UnreachableState,
    /// The process heap cannot take the message.
    RelocationFailure,
}

} // verus!
