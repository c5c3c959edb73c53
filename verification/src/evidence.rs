//! Encoding of screenshot evidence payloads.
//!
//! A screenshot taken as evidence travels to the host as base64 text of its
//! PNG bytes.

use base64::Engine;
use vstd::prelude::*;

verus! {

/// The base64 text of `bytes` under the standard alphabet with padding.
pub uninterp spec fn base64_of(bytes: Seq<u8>) -> Seq<char>;

/// Relies on base64's STANDARD engine: the encoding is a function of the
/// input bytes alone, four output characters for every started three-byte
/// group.
#[verifier::external_body]
fn base64_encode(data: &[u8]) -> (r: String)
    ensures
        r@ == base64_of(data@),
        r@.len() == 4 * ((data@.len() + 2) / 3),
{
    base64::engine::general_purpose::STANDARD.encode(data)
}

/// Encode a screenshot's PNG bytes as the base64 payload attached to a piece
/// of evidence.
pub fn screenshot_payload(png: &Vec<u8>) -> (r: String)
    ensures
        r@ == base64_of(png@),
        r@.len() == 4 * ((png@.len() + 2) / 3),
{
    base64_encode(png.as_slice())
}

} // verus!
