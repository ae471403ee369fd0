//! The text form in which frame payloads travel: base64, standard alphabet,
//! padded, as the `base64` crate writes and reads it.

use vstd::prelude::*;

verus! {

/// The base64 text of `bytes`: what `base64::encode` returns for them.
pub uninterp spec fn base64_text(bytes: Seq<u8>) -> Seq<char>;

/// The bytes that `text` stands for: what `base64::decode` returns for it,
/// `None` where it reports an error.
pub uninterp spec fn base64_bytes(text: Seq<char>) -> Option<Seq<u8>>;

#[verifier::external_type_specification]
#[verifier::external_body]
pub struct ExDecodeError(base64::DecodeError);

/// `base64::encode`, which encodes with the crate's `STANDARD` configuration.
///
/// Trusted: the text depends on the bytes alone, and decoding it with
/// `base64::decode`, which uses the same configuration, gives the bytes
/// back. The verifier takes both from here; the second is the inverse
/// property that the crate's own round trip tests exercise.
#[verifier::external_body]
pub(crate) fn encode(bytes: &[u8]) -> (text: String)
    ensures
        text@ == base64_text(bytes@),
        base64_bytes(text@) == Some(bytes@),
{
    base64::encode(bytes)
}

/// `base64::decode`, which decodes with the crate's `STANDARD` configuration.
///
/// Trusted: whether the text is accepted, and the bytes it yields, depend on
/// the text alone.
#[verifier::external_body]
pub(crate) fn decode(text: &str) -> (decoded: Result<Vec<u8>, base64::DecodeError>)
    ensures
        decoded matches Ok(bytes) ==> base64_bytes(text@) == Some(bytes@),
        decoded is Err ==> base64_bytes(text@) is None,
{
    base64::decode(text)
}

} // verus!
