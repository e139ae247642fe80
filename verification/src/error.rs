//! The failures that a delegated operation can end in.

use vstd::prelude::*;

verus! {

/// Why a delegated operation did not take place.
///
/// Nothing is retried and nothing is recovered locally: each failure ends
/// the operation and is handed to the caller as it is.
#[derive(Clone, Copy, Debug, PartialEq, Eq, Structural)]
pub enum DispatchError {
    /// No bump in the allowed range yields a valid derived identity.
    DerivationExhausted,
    /// The authority that the request names is not the one that the
    /// signer's seed derives: seed and account setup disagree.
    BumpMismatch,
    /// The token program declined; the value is its reason code, unchanged.
    InvocationRejected(u64),
}

} // verus!
