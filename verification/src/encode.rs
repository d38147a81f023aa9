//! Base64 text for image bytes, as the chat flow attaches them.

use vstd::prelude::*;

verus! {

/// What `base64::encode` returns for the given bytes: standard alphabet,
/// padded.
pub uninterp spec fn base64_of(data: Seq<u8>) -> Seq<char>;

/// Relies on `base64::encode`: standard-alphabet, padded encoding, four
/// characters for every started group of three bytes; the result depends on
/// the bytes alone.
#[verifier::external_body]
fn base64_encode(data: &Vec<u8>) -> (r: String)
    ensures
        r@ == base64_of(data@),
        r@.len() == 4 * ((data@.len() + 2) / 3),
{
    base64::encode(data)
}

/// Encodes image bytes as the base64 text a data URL carries.
pub fn encode_image_to_base64(data: &Vec<u8>) -> (r: String)
    ensures
        r@ == base64_of(data@),
        r@.len() == 4 * ((data@.len() + 2) / 3),
{
    base64_encode(data)
}

} // verus!
