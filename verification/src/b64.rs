//! Base64 conversions for carrying serialized messages inside text
//! commands.
//!
//! The alphabet and padding are the standard ones of the outside encoder;
//! both directions are named by uninterpreted functions, and the one fact
//! stated beyond determinism is that decoding inverts encoding — the
//! defining property of the format, exercised by the tests.

use vstd::prelude::*;

use base64::Engine;

verus! {

#[verifier::external_type_specification]
#[verifier::external_body]
pub struct ExDecodeError(base64::DecodeError);

/// The base64 text of a byte sequence. The result depends on the bytes
/// alone.
pub uninterp spec fn base64_of(b: Seq<u8>) -> Seq<char>;

/// The bytes a base64 text decodes to, or nothing for text that is not
/// valid base64. The outcome depends on the text alone.
pub uninterp spec fn base64_decoded(s: Seq<char>) -> Option<Seq<u8>>;

/// Encodes bytes as base64 text.
///
/// Relies on `base64::engine::Engine::encode` with the standard alphabet
/// and padding: the encoding is a function of the bytes, and the same
/// engine's `decode` reverses it, which is the round-trip fact stated
/// here.
#[verifier::external_body]
pub fn bytes_to_base64(data: &Vec<u8>) -> (r: String)
    ensures
        r@ == base64_of(data@),
        base64_decoded(r@) == Some(data@),
{
    base64::engine::general_purpose::STANDARD.encode(data.as_slice())
}

/// Decodes base64 text to the serialized message bytes it carries.
///
/// Relies on `base64::engine::Engine::decode` with the standard alphabet
/// and padding: the outcome is a function of the text, and text that is
/// not valid base64 is rejected with the engine's error.
#[verifier::external_body]
pub fn base64_to_protobuf_bytes(base64str: &str) -> (r: Result<Vec<u8>, base64::DecodeError>)
    ensures
        r matches Ok(v) ==> base64_decoded(base64str@) == Some(v@),
        r is Err ==> base64_decoded(base64str@) is None,
{
    base64::engine::general_purpose::STANDARD.decode(base64str)
}

} // verus!
