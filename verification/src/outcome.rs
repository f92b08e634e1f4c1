use vstd::prelude::*;

verus! {

/// Why a conformance check failed.
#[derive(Clone, Copy, Debug, PartialEq, Eq, Structural)]
pub enum CheckError {
    /// A freshly produced signature did not verify under its own public key.
    SelfVerificationFailed,
    /// A freshly produced possession proof did not verify under its own public key.
    PopSelfVerificationFailed,
    /// The serialized output differs from the pinned expected bytes.
    EncodingMismatch,
    /// Deserializing the expected bytes did not reproduce the computed value.
    RoundTripMismatch,
    /// Serialization or deserialization raised a lower-level error.
    IoFailure,
}

/// A failed conformance check: which vector failed, and how.
#[derive(Clone, Copy, Debug, PartialEq, Eq, Structural)]
pub struct CheckFailure {
    /// The index of the offending vector within its scenario group.
    pub index: usize,
    /// The kind of failure.
    pub error: CheckError,
}

} // verus!
