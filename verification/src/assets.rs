//! Decoding uploaded assets: the logo arrives as base64-encoded data and is
//! decoded here before anything is written to disk.

use vstd::prelude::*;
use base64::Engine;

verus! {

/// What decoding a string as standard base64 yields: the bytes, or nothing
/// when the string is not well-formed base64. A function of the string alone.
pub uninterp spec fn base64_standard_decoded(s: Seq<char>) -> Option<Seq<u8>>;

/// Relies on the `base64` crate's `Engine::decode` with the standard-alphabet
/// engine (`BASE64_STANDARD`): deterministic in its input, succeeding exactly
/// on well-formed standard base64.
#[verifier::external_body]
fn base64_decode(data: &str) -> (r: Option<Vec<u8>>)
    ensures
        match r {
            Some(v) => base64_standard_decoded(data@) == Some(v@),
            None => base64_standard_decoded(data@) is None,
        },
{
    match base64::engine::general_purpose::STANDARD.decode(data) {
        Ok(v) => Some(v),
        Err(_) => None,
    }
}

/// The raw bytes of an uploaded logo: the base64 payload decoded, or nothing
/// when the transferred data is not valid base64 (the upload is then refused
/// before any file is touched).
pub fn decode_logo_data(file_data: &str) -> (r: Option<Vec<u8>>)
    ensures
        match r {
            Some(v) => base64_standard_decoded(file_data@) == Some(v@),
            None => base64_standard_decoded(file_data@) is None,
        },
{
    base64_decode(file_data)
}

} // verus!
