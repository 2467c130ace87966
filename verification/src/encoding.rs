//! Base64, the encoding of opaque transaction bytes on the wire.
use vstd::prelude::*;
use base64ct::Encoding;

verus! {

/// The standard, padded Base64 text of a run of bytes.
pub uninterp spec fn base64_text(bytes: Seq<u8>) -> Seq<char>;

/// The bytes that a text holds in standard, padded Base64; `None` if the text is not
/// well-formed Base64.
pub uninterp spec fn base64_bytes(text: Seq<char>) -> Option<Seq<u8>>;

/// Trusted: `base64ct::Base64::encode_string`. The text depends on the bytes alone, and
/// decoding it gives the bytes back. The call panics on more than `usize::MAX / 4` bytes,
/// which the precondition leaves out.
#[verifier::external_body]
pub(crate) fn base64_encode(bytes: &[u8]) -> (r: String)
    requires
        bytes@.len() <= usize::MAX / 4,
    ensures
        r@ == base64_text(bytes@),
        base64_bytes(r@) == Some(bytes@),
{
    base64ct::Base64::encode_string(bytes)
}

/// Trusted: `base64ct::Base64::decode_vec`. It yields the bytes that the text holds, or
/// nothing where the text is not well-formed; which of the two depends on the text alone.
#[verifier::external_body]
pub(crate) fn base64_decode(text: &str) -> (r: Option<Vec<u8>>)
    ensures
        r.is_some() == base64_bytes(text@).is_some(),
        r matches Some(bytes) ==> base64_bytes(text@) == Some(bytes@),
{
    base64ct::Base64::decode_vec(text).ok()
}

} // verus!
