use vstd::prelude::*;

verus! {

/// The failures a proof operation can report.
///
/// Verification failures are deliberately a single uniform variant: callers
/// must not be able to tell which sub-check (small-order rejection, public
/// input mismatch, pairing equation) rejected a proof.
#[derive(Clone, Copy, Debug, PartialEq, Eq, Structural)]
pub enum SaplingProofError {
    /// The proving-parameter bytes were truncated or malformed. Fatal: no
    /// proof operation can proceed without valid parameters.
    InitializationError,
    /// The zero-knowledge circuit could not be synthesized into a proof.
    SaplingProofCreationError,
    /// The proof was rejected; no further cause is revealed.
    VerificationFailed,
    /// Serialized bytes were truncated or malformed.
    ReadError,
}

impl SaplingProofError {
    /// A short human-readable description of the error.
    pub fn describe(&self) -> (r: &'static str)
    {
        match self {
            SaplingProofError::InitializationError => "invalid proving parameters",
            SaplingProofError::SaplingProofCreationError => "proof creation failed",
            SaplingProofError::VerificationFailed => "verification failed",
            SaplingProofError::ReadError => "read failed",
        }
    }
}

} // verus!
