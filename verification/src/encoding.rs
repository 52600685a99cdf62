//! Trusted wrappers around the binary-to-text codecs the chain data uses.
//!
//! Base58 and base64 results are functions of their input alone, but take
//! pages to state, so each is given a name that the wrappers' contracts
//! share with the callers' own specifications.

use vstd::prelude::*;

verus! {

/// What base58 decoding yields for a character string: the decoded bytes,
/// or nothing when the string is not valid base58.
pub uninterp spec fn base58_decoded(s: Seq<char>) -> Option<Seq<u8>>;

/// The base58 rendering of a byte string.
pub uninterp spec fn base58_of(data: Seq<u8>) -> Seq<char>;

/// What standard-alphabet base64 decoding yields for a character string:
/// the decoded bytes, or nothing when the string is not valid base64.
pub uninterp spec fn base64_decoded(s: Seq<char>) -> Option<Seq<u8>>;

/// Relies on `bs58::decode` and `DecodeBuilder::into_vec` with the
/// default (Bitcoin) alphabet: decodes base58 text, reporting malformed
/// input as an error value.
#[verifier::external_body]
pub fn bs58_decode(s: &str) -> (r: Option<Vec<u8>>)
    ensures
        match r {
            Some(v) => base58_decoded(s@) == Some(v@),
            None => base58_decoded(s@) is None,
        },
{
    match bs58::decode(s).into_vec() {
        Ok(v) => Some(v),
        Err(_) => None,
    }
}

/// Relies on `bs58::encode` and `EncodeBuilder::into_string` with the
/// default (Bitcoin) alphabet.
#[verifier::external_body]
pub fn bs58_encode(data: &[u8]) -> (r: String)
    ensures
        r@ == base58_of(data@),
{
    bs58::encode(data).into_string()
}

/// Relies on `base64::Engine::decode` with the standard alphabet and
/// padding: decodes base64 text, reporting malformed input as an error
/// value.
#[verifier::external_body]
pub fn b64_decode(s: &str) -> (r: Option<Vec<u8>>)
    ensures
        match r {
            Some(v) => base64_decoded(s@) == Some(v@),
            None => base64_decoded(s@) is None,
        },
{
    match base64::Engine::decode(&base64::engine::general_purpose::STANDARD, s) {
        Ok(v) => Some(v),
        Err(_) => None,
    }
}

} // verus!
