//! Base64 text, as the `base64` crate's standard engine reads and writes it.

use base64::Engine;
use vstd::prelude::*;

verus! {

/// Error of the `base64` crate's decoder, carried through unopened.
#[verifier::external_type_specification]
#[verifier::external_body]
pub struct ExDecodeError(base64::DecodeError);

/// The bytes that the standard engine decodes a text to, or `None` where it
/// refuses the text.
pub uninterp spec fn base64_decoding(text: Seq<char>) -> Option<Seq<u8>>;

/// The text that the standard engine encodes bytes to.
pub uninterp spec fn base64_encoding(bytes: Seq<u8>) -> Seq<char>;

/// The length of the encoding of `len` bytes: four characters for every
/// three bytes or part of three.
pub open spec fn base64_len(len: nat) -> nat {
    (len + 2) / 3 * 4
}

/// `Engine::decode` of `general_purpose::STANDARD`: the standard alphabet,
/// with padding. The result is a function of the text alone.
#[verifier::external_body]
pub(crate) fn base64_decode(text: &str) -> (r: Result<Vec<u8>, base64::DecodeError>)
    ensures
        r is Ok <==> base64_decoding(text@) is Some,
        r matches Ok(bytes) ==> base64_decoding(text@) == Some(bytes@),
{
    base64::engine::general_purpose::STANDARD.decode(text)
}

/// `Engine::encode` of `general_purpose::STANDARD`: the standard alphabet,
/// with padding. It panics where the length of the encoding does not fit
/// `usize`, which the precondition excludes. The result is a function of
/// the bytes alone.
#[verifier::external_body]
pub(crate) fn base64_encode(bytes: &[u8]) -> (text: String)
    requires
        base64_len(bytes@.len()) <= usize::MAX,
    ensures
        text@ == base64_encoding(bytes@),
{
    base64::engine::general_purpose::STANDARD.encode(bytes)
}

} // verus!
