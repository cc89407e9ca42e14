//! The cache codec: typed values to and from the compact binary form that
//! the key/value store holds.
//!
//! Text is encoded here. Callers with richer value types run the same
//! encoder on them and hand its result to [`encoded`] and [`decoded`].

use vstd::prelude::*;
use vstd::utf8::encode_utf8;
use crate::errors::CacheError;

verus! {

/// `rmp_serde::encode::Error`, the encoder's failure. Opaque here.
#[verifier::external_type_specification]
#[verifier::external_body]
pub struct ExEncodeError(rmp_serde::encode::Error);

/// `rmp_serde::decode::Error`, the decoder's failure. Opaque here.
#[verifier::external_type_specification]
#[verifier::external_body]
pub struct ExDecodeError(rmp_serde::decode::Error);

/// The bytes that the encoder writes for a text.
pub uninterp spec fn packed_text(text: Seq<char>) -> Seq<u8>;

/// The text that the decoder reads from the bytes, if it accepts them.
pub uninterp spec fn unpacked_text(bytes: Seq<u8>) -> Option<Seq<char>>;

/// Whether the text's UTF-8 form is short enough for the 32-bit length
/// that the encoding writes in front of it.
pub open spec fn fits_length_prefix(text: Seq<char>) -> bool {
    encode_utf8(text).len() <= u32::MAX
}

/// Calls `rmp_serde::to_vec` on a text. Claims that the encoder refuses no
/// text (it fails only where memory for the bytes is refused, which is
/// left aside here as it is for `Vec`), that the bytes depend on the text
/// alone, and that the decoder reads the text back from them where the
/// text's length fits the length prefix.
#[verifier::external_body]
fn pack_text(text: &str) -> (res: Result<Vec<u8>, rmp_serde::encode::Error>)
    ensures
        res is Ok,
        res matches Ok(bytes) ==> bytes@ == packed_text(text@),
        res matches Ok(bytes) ==> (fits_length_prefix(text@) ==> unpacked_text(bytes@) == Some(
            text@,
        )),
{
    rmp_serde::to_vec(text)
}

/// Calls `rmp_serde::from_slice` for a `String`. Claims that whether the
/// bytes are accepted, and the text read from them, depend on the bytes
/// alone.
#[verifier::external_body]
fn unpack_text(bytes: &[u8]) -> (res: Result<String, rmp_serde::decode::Error>)
    ensures
        res matches Ok(text) ==> unpacked_text(bytes@) == Some(text@),
        res is Err ==> unpacked_text(bytes@) is None,
{
    rmp_serde::from_slice::<String>(bytes)
}

/// Renders an `rmp_serde::encode::Error` through its `Display` impl.
/// Nothing is claimed of the text.
#[verifier::external_body]
fn encode_error_text(error: &rmp_serde::encode::Error) -> (text: String) {
    format!("{}", error)
}

/// Renders an `rmp_serde::decode::Error` through its `Display` impl.
/// Nothing is claimed of the text.
#[verifier::external_body]
fn decode_error_text(error: &rmp_serde::decode::Error) -> (text: String) {
    format!("{}", error)
}

/// Turns the encoder's verdict into the cache's: the bytes unchanged, or a
/// serialization error.
pub fn encoded(verdict: Result<Vec<u8>, rmp_serde::encode::Error>) -> (res: Result<
    Vec<u8>,
    CacheError,
>)
    ensures
        verdict matches Ok(bytes) ==> res == Ok::<Vec<u8>, CacheError>(bytes),
        verdict is Err ==> (res matches Err(e) && e@ is Serialization),
{
    match verdict {
        Ok(bytes) => Ok(bytes),
        Err(error) => Err(CacheError::Serialization(encode_error_text(&error))),
    }
}

/// Turns the decoder's verdict into the cache's: the value unchanged, or a
/// deserialization error.
pub fn decoded<V>(verdict: Result<V, rmp_serde::decode::Error>) -> (res: Result<V, CacheError>)
    ensures
        verdict matches Ok(value) ==> res == Ok::<V, CacheError>(value),
        verdict is Err ==> (res matches Err(e) && e@ is Deserialization),
{
    match verdict {
        Ok(value) => Ok(value),
        Err(error) => Err(CacheError::Deserialization(decode_error_text(&error))),
    }
}

/// Encodes a text: always the bytes that the encoder writes for it. Equal
/// texts give equal bytes, and decoding the bytes gives the text back.
pub fn encode_text(text: &str) -> (res: Result<Vec<u8>, CacheError>)
    ensures
        res matches Ok(bytes) && bytes@ == packed_text(text@),
        fits_length_prefix(text@) ==> unpacked_text(packed_text(text@)) == Some(text@),
{
    encoded(pack_text(text))
}

/// Decodes a text: the text the decoder reads where it accepts the bytes,
/// a deserialization error where it does not.
pub fn decode_text(bytes: &[u8]) -> (res: Result<String, CacheError>)
    ensures
        match unpacked_text(bytes@) {
            Some(text) => res matches Ok(value) && value@ == text,
            None => res matches Err(e) && e@ is Deserialization,
        },
{
    decoded(unpack_text(bytes))
}

/// Encoding is deterministic: equal keys are encoded to equal bytes, so
/// equal keys address the same entry of the store.
pub proof fn encode_deterministic(k1: Seq<char>, k2: Seq<char>)
    requires
        k1 == k2,
    ensures
        packed_text(k1) == packed_text(k2),
{
}

} // verus!
