//! The printable form of key material: base64 with the standard alphabet and
//! padding.

use base64::engine::general_purpose::STANDARD;
use base64::DecodeError;
use base64::Engine;
use vstd::prelude::*;

verus! {

/// The error of the base64 decoder. Only the fact that decoding failed is
/// used.
#[verifier::external_type_specification]
#[verifier::external_body]
pub struct ExDecodeError(DecodeError);

/// The standard padded base64 text of a byte string, as
/// `base64::engine::general_purpose::STANDARD.encode` produces it.
pub uninterp spec fn base64_text(bytes: Seq<u8>) -> Seq<char>;

/// What `base64::engine::general_purpose::STANDARD.decode` makes of a text:
/// the bytes it stands for, or `None` where the engine rejects it.
pub uninterp spec fn base64_bytes(text: Seq<char>) -> Option<Seq<u8>>;

/// The length of the padded encoding of `len` bytes: four characters for
/// every three bytes or part thereof.
pub open spec fn encoded_len(len: nat) -> nat {
    4 * ((len + 2) / 3)
}

/// Whether the encoded length of `len` bytes can be held in a `usize`.
pub open spec fn encodable(len: nat) -> bool {
    encoded_len(len) <= usize::MAX
}

/// `Engine::encode` on the `STANDARD` engine. The engine panics when the
/// encoded length does not fit in a `usize`, so such inputs are excluded. The
/// result is a function of the bytes alone; with padding it has four
/// characters for every three bytes or part thereof; and the engine's decoder
/// reads it back as the bytes it was made from.
#[verifier::external_body]
fn standard_encode(bytes: &[u8]) -> (text: String)
    requires
        encodable(bytes@.len()),
    ensures
        text@ == base64_text(bytes@),
        text@.len() == encoded_len(bytes@.len()),
        base64_bytes(text@) == Some(bytes@),
{
    STANDARD.encode(bytes)
}

/// `Engine::decode` on the `STANDARD` engine. The result is a function of the
/// text alone, and the engine decodes what it has encoded: a text that is the
/// encoding of some bytes yields exactly those bytes.
#[verifier::external_body]
fn standard_decode(text: &str) -> (outcome: Result<Vec<u8>, DecodeError>)
    ensures
        outcome is Ok <==> base64_bytes(text@) is Some,
        outcome matches Ok(decoded) ==> base64_bytes(text@) == Some(decoded@),
        forall|bytes: Seq<u8>|
            text@ == #[trigger] base64_text(bytes) ==> outcome is Ok && outcome->Ok_0@ == bytes,
{
    STANDARD.decode(text)
}

/// Encodes key material for display and matching. The text can be decoded
/// again.
pub fn encode(bytes: &[u8]) -> (text: String)
    requires
        encodable(bytes@.len()),
    ensures
        text@ == base64_text(bytes@),
        text@.len() == encoded_len(bytes@.len()),
        base64_bytes(text@) == Some(bytes@),
{
    standard_encode(bytes)
}

/// Encodes a 32-byte key: 44 characters that can be decoded again.
pub fn encode_key(key: &[u8; 32]) -> (text: String)
    ensures
        text@ == base64_text(key@),
        text@.len() == 44,
        base64_bytes(text@) == Some(key@),
{
    standard_encode(key.as_slice())
}

/// Decodes an encoded text back into bytes; `None` where the text is not
/// valid padded base64. Decoding undoes encoding.
pub fn decode(text: &str) -> (bytes: Option<Vec<u8>>)
    ensures
        bytes is Some <==> base64_bytes(text@) is Some,
        bytes matches Some(decoded) ==> base64_bytes(text@) == Some(decoded@),
        forall|plain: Seq<u8>|
            text@ == #[trigger] base64_text(plain) ==> (bytes matches Some(decoded) && decoded@
                == plain),
{
    match standard_decode(text) {
        Ok(decoded) => Some(decoded),
        Err(_) => None,
    }
}

} // verus!
