use vstd::prelude::*;

verus! {

/// Why an interaction with the provider failed.
///
/// The two kinds are distinguishable to the caller: `Network` means the
/// outbound request itself did not complete (connectivity, TLS, timeout),
/// while `Decode` means a response arrived but could not be interpreted as
/// the expected shape — malformed JSON, a schema mismatch, or an unparsable
/// timestamp string.
#[derive(Debug, Clone, Copy, PartialEq, Eq, Hash, Structural)]
pub enum TransportError {
    /// The request could not be completed.
    Network,
    /// A response was received but does not have the expected shape.
    Decode,
}

impl TransportError {
    /// Short text of the failure kind, for callers that report errors.
    pub fn describe(&self) -> (r: &'static str)
        ensures
            *self == TransportError::Network ==> r@ == "network error"@,
            *self == TransportError::Decode ==> r@ == "decode error"@,
    {
        match self {
            TransportError::Network => "network error",
            TransportError::Decode => "decode error",
        }
    }
}

} // verus!
