//! Error taxonomy of the integration layer.

use vstd::prelude::*;

verus! {

/// Errors surfaced by the core components.
///
/// `BlockchainError` covers node RPC, network and parse failures;
/// `ValidationError` covers malformed caller input that is reported as a
/// hard error (malformed verification input is instead reported inside a
/// `SignatureVerificationResult`); `NotEnabled` is returned by callers of
/// the facade when the blockchain services were never configured.
#[derive(Debug, Clone, PartialEq, Eq)]
pub enum AppError {
    BlockchainError(String),
    ValidationError(String),
    NotEnabled,
}

impl AppError {
    /// The human-readable detail carried by this error.
    pub fn message(&self) -> (r: String)
        ensures
            r@ == self.spec_message(),
    {
        match self {
            AppError::BlockchainError(m) => m.clone(),
            AppError::ValidationError(m) => m.clone(),
            AppError::NotEnabled => String::from_str("blockchain services are not enabled"),
        }
    }

    pub open spec fn spec_message(&self) -> Seq<char> {
        match self {
            AppError::BlockchainError(m) => m@,
            AppError::ValidationError(m) => m@,
            AppError::NotEnabled => "blockchain services are not enabled"@,
        }
    }
}

} // verus!
