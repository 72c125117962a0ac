//! Encoding a captured screen image for the front end: the raw encoded
//! bytes the engine hands back become a data URL.

use base64::engine::general_purpose::STANDARD;
use base64::Engine;
use vstd::prelude::*;

verus! {

/// What the standard-alphabet encoding makes of a byte sequence.
pub uninterp spec fn base64_of(b: Seq<u8>) -> Seq<char>;

/// Relies on the `base64` crate's standard-alphabet engine: `encode`
/// renders the bytes in the usual padded alphabet.
#[verifier::external_body]
fn base64_encode(data: &[u8]) -> (r: String)
    ensures
        r@ == base64_of(data@),
{
    STANDARD.encode(data)
}

/// The data URL for one encoded image, as a front end can display it
/// directly: the media-type prefix followed by the image bytes in their
/// transport encoding.
pub fn image_data_url(data: &Vec<u8>) -> (r: String)
    ensures
        r@ == "data:image/png;base64,"@ + base64_of(data@),
{
    let mut url = "data:image/png;base64,".to_owned();
    let encoded = base64_encode(data.as_slice());
    url.append(encoded.as_str());
    url
}

} // verus!
