use vstd::prelude::*;

verus! {

/// The failures a request can end in. None of them carries a sub-cause, so a
/// caller learns no more than which stage refused the request.
#[derive(Debug, Clone, Copy, PartialEq, Eq, Structural)]
pub enum ProviderError {
    /// The quote bytes are malformed, truncated, or of an unsupported kind.
    QuoteParseError,
    /// The evidence could not be verified: collateral was unavailable or the
    /// cryptographic check failed.
    QuoteVerificationError,
    /// The requester's quote and the local quote name different platforms.
    PPIDMismatch,
    /// The report data holds no usable public key.
    PublicKeyError,
    /// The cryptographic library could not be initialised.
    CryptoError,
    /// The platform could not produce a local quote or a sealing secret.
    PlatformError,
}

} // verus!
