//! Terminal bytes on a channel that carries text: base64 in both directions.

use vstd::prelude::*;
use base64::Engine;

verus! {

/// The standard, padded base64 text of `bytes`.
pub uninterp spec fn base64_text(bytes: Seq<u8>) -> Seq<char>;

/// The bytes that standard, padded base64 `text` stands for, where it is well formed.
pub uninterp spec fn base64_bytes(text: Seq<char>) -> Option<Seq<u8>>;

/// Whether the length of the base64 text of `len` bytes can be represented.
pub open spec fn encodable(len: nat) -> bool {
    (len / 3 + 1) * 4 <= usize::MAX
}

/// Encodes bytes as base64.
///
/// Trusted: wraps `Engine::encode` of `base64::engine::general_purpose::STANDARD`. The
/// claim is that the text depends on the bytes alone, and that it is text which the
/// same engine decodes to those bytes. The call panics where the length of the text
/// overflows, which `requires` rules out.
#[verifier::external_body]
pub(crate) fn encode_base64(bytes: &Vec<u8>) -> (text: String)
    requires
        encodable(bytes@.len()),
    ensures
        text@ == base64_text(bytes@),
        base64_bytes(text@) == Some(bytes@),
{
    base64::engine::general_purpose::STANDARD.encode(bytes)
}

/// Decodes base64 text. An error carries the decoder's description of what is wrong.
///
/// Trusted: wraps `Engine::decode` of `base64::engine::general_purpose::STANDARD`. The
/// claim is that acceptance and the bytes depend on the text alone; nothing is claimed
/// of the description.
#[verifier::external_body]
pub(crate) fn decode_base64(text: &str) -> (decoded: Result<Vec<u8>, String>)
    ensures
        match decoded {
            Ok(bytes) => base64_bytes(text@) == Some(bytes@),
            Err(_) => base64_bytes(text@) is None,
        },
{
    base64::engine::general_purpose::STANDARD.decode(text).map_err(|e| e.to_string())
}

} // verus!
