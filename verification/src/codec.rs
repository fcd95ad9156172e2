//! Text encodings and random bytes: the few outside functions every other
//! module leans on. Their contracts are believed, not proved.

use vstd::prelude::*;
use vstd::utf8::*;
use base64::Engine;
use rand::RngCore;

verus! {

/// The padded, standard-alphabet Base64 text of a byte string.
pub uninterp spec fn base64_text(data: Seq<u8>) -> Seq<char>;

/// The bytes that a Base64 text, given as its UTF-8 bytes, stands for; `None`
/// where the text is not padded standard-alphabet Base64.
pub uninterp spec fn base64_bytes(text: Seq<u8>) -> Option<Seq<u8>>;

/// The characters of padded standard-alphabet Base64.
pub open spec fn is_base64_char(c: char) -> bool {
    ||| 'A' <= c <= 'Z'
    ||| 'a' <= c <= 'z'
    ||| '0' <= c <= '9'
    ||| c == '+'
    ||| c == '/'
    ||| c == '='
}

/// Text made of the characters of padded standard-alphabet Base64 alone.
pub open spec fn is_base64_text(text: Seq<char>) -> bool {
    forall|i: int| 0 <= i < text.len() ==> is_base64_char(#[trigger] text[i])
}

/// Input lengths whose Base64 text still has a length that fits in `usize`.
pub open spec fn base64_encodable(len: nat) -> bool {
    len / 3 < usize::MAX / 4
}

/// Whether `len` bytes can be handed to [`base64_encode`].
pub fn can_base64_encode(len: usize) -> (ok: bool)
    ensures
        ok == base64_encodable(len as nat),
{
    len / 3 < usize::MAX / 4
}

/// Calls `base64::Engine::encode` on the `STANDARD` engine.
///
/// Believed of it: the text is a function of the bytes alone, decoding the
/// text gives the bytes back, and the text holds only characters of the
/// standard alphabet and the padding sign. The outside function panics where
/// the encoded length overflows `usize`; the precondition leaves those
/// lengths out.
#[verifier::external_body]
pub(crate) fn base64_encode(data: &[u8]) -> (text: String)
    requires
        base64_encodable(data@.len()),
    ensures
        text@ == base64_text(data@),
        base64_bytes(encode_utf8(text@)) == Some(data@),
        forall|i: int| 0 <= i < text@.len() ==> is_base64_char(#[trigger] text@[i]),
{
    base64::engine::general_purpose::STANDARD.encode(data)
}

/// Calls `base64::Engine::decode` on the `STANDARD` engine.
///
/// Believed of it: whether it succeeds, and the bytes it gives, depend on the
/// input alone. The error is handed back as the text of the outside error.
#[verifier::external_body]
pub(crate) fn base64_decode(text: &[u8]) -> (r: Result<Vec<u8>, String>)
    ensures
        r is Ok <==> base64_bytes(text@) is Some,
        r matches Ok(data) ==> base64_bytes(text@) == Some(data@),
{
    base64::engine::general_purpose::STANDARD.decode(text).map_err(|e| e.to_string())
}

/// Calls `String::from_utf8`.
///
/// Believed of it, as std documents: it succeeds exactly on well-formed UTF-8,
/// and the string it gives has the input as its bytes. The error is handed
/// back as the text of the std error.
#[verifier::external_body]
pub(crate) fn string_from_utf8(bytes: Vec<u8>) -> (r: Result<String, String>)
    ensures
        r is Ok <==> valid_utf8(bytes@),
        r matches Ok(s) ==> encode_utf8(s@) == bytes@,
{
    String::from_utf8(bytes).map_err(|e| e.to_string())
}

/// Fills a fresh buffer through `rand::RngCore::fill_bytes` of
/// `rand::rngs::OsRng`.
///
/// Only the length is known of the result: the bytes come from the operating
/// system's generator. The outside function aborts where that generator is
/// unavailable.
#[verifier::external_body]
pub(crate) fn os_random_bytes(len: usize) -> (out: Vec<u8>)
    ensures
        out@.len() == len,
{
    let mut out = vec![0u8; len];
    rand::rngs::OsRng.fill_bytes(&mut out);
    out
}

/// Fills a fresh buffer through `rand::RngCore::fill_bytes` of
/// `rand::thread_rng()`.
///
/// Only the length is known of the result.
#[verifier::external_body]
pub(crate) fn thread_random_bytes(len: usize) -> (out: Vec<u8>)
    ensures
        out@.len() == len,
{
    let mut out = vec![0u8; len];
    rand::thread_rng().fill_bytes(&mut out);
    out
}

} // verus!
