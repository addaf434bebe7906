//! The failure taxonomy of an invocation.

use vstd::prelude::*;

verus! {

/// Every way an invocation can fail. None of these is recovered locally: each
/// aborts the invocation, and the enclosing runtime discards all attempted
/// effects.
#[derive(Clone, Copy, Debug, PartialEq, Eq, Structural)]
pub enum StatsError {
    /// The instruction payload does not decode as a supported request.
    MalformedRequest,
    /// The caller did not cryptographically authorize the transaction.
    MissingAuthorization,
    /// The supplied storage address differs from the one derived for the caller.
    AddressMismatch,
    /// The existing slot contents do not parse as the fixed record layout.
    CorruptRecord,
    /// The storage slot could not be created or funded.
    AllocationFailed,
}

} // verus!
