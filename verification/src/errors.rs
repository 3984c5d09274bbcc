use vstd::prelude::*;

verus! {

/// Error taxonomy of the protocol engine.  Every protocol-level error
/// aborts the session that produced it: there is no retry and no
/// partial-progress resume.
#[derive(Clone, Copy, Debug, PartialEq, Eq, Structural)]
pub enum SwapError {
    /// A distributed-key-generation or adaptor proof did not check out.
    /// Always fatal: it indicates malice or corruption.
    VerificationFailure,
    /// A malformed scalar or point, or a signing-library error.  Fatal.
    CryptoOperationFailure,
    /// A broadcast or RPC error reported by the ledger driver.  Surfaced
    /// to the caller; the session never resubmits on its own.
    ChainSubmissionFailure,
    /// A session operation was invoked out of protocol order, or after
    /// its input was already consumed.
    InvalidState,
}

impl SwapError {
    /// A short human-readable cause, for drivers that report failures.
    pub fn describe(&self) -> (r: &'static str)
        ensures
            r@.len() > 0,
    {
        let r = match self {
            SwapError::VerificationFailure => "verification failed",
            SwapError::CryptoOperationFailure => "cryptographic operation failed",
            SwapError::ChainSubmissionFailure => "chain submission failed",
            SwapError::InvalidState => "session is not in the required state",
        };
        proof {
            reveal_strlit("verification failed");
            reveal_strlit("cryptographic operation failed");
            reveal_strlit("chain submission failed");
            reveal_strlit("session is not in the required state");
        }
        r
    }
}

} // verus!
