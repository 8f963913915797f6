//! The closed error taxonomy of the protocol.

use vstd::prelude::*;

verus! {

/// Errors that a reveal can end in. Every failure is terminal: the call
/// returns the error and leaves all stored state as it was.
#[derive(Clone, Copy, Debug, PartialEq, Eq, Structural)]
pub enum VRFError {
    /// The pairing check failed, the stored public key is missing at
    /// reveal time, or a curve-point encoding was not accepted.
    InvalidSignature,
    /// The recomputed hash does not equal the stored commitment.
    CommitmentMismatch,
    /// Reveal was attempted for an identity with no prior commit.
    NoCommitmentFound,
}

} // verus!
