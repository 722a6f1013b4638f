//! Decoding raw image bytes through the outside codec.
//!
//! Decoding is a pure computation on the fetched bytes: the codec guesses
//! the source format and produces an in-memory pixel buffer, which stays
//! opaque to the rest of the library and is handed on to the encode step.

use crate::transcode::TranscodeError;
use vstd::prelude::*;

verus! {

/// Whether the codec recognizes `bytes` as a supported, well-formed image.
/// Decoding is deterministic, so this is a function of the bytes alone.
pub uninterp spec fn decode_accepts(bytes: Seq<u8>) -> bool;

#[verifier::external_type_specification]
#[verifier::external_body]
pub struct ExDynamicImage(image::DynamicImage);

/// Relies on image::load_from_memory: guesses the image format from the
/// bytes and decodes them, succeeding or failing on the bytes alone. A
/// failure is returned as the codec's error message.
#[verifier::external_body]
pub(crate) fn load_image(bytes: &[u8]) -> (r: Result<image::DynamicImage, String>)
    ensures
        r is Ok <==> decode_accepts(bytes@),
{
    match image::load_from_memory(bytes) {
        Ok(img) => Ok(img),
        Err(e) => Err(format!("{}", e)),
    }
}

/// Decode fetched bytes into a pixel buffer.
///
/// Succeeds exactly when the codec accepts the bytes; anything else is a
/// decode-step failure carrying the codec's message.
pub fn decode_blob(bytes: &[u8]) -> (r: Result<image::DynamicImage, TranscodeError>)
    ensures
        r is Ok <==> decode_accepts(bytes@),
        r matches Err(e) ==> e is DecodeFailed,
{
    match load_image(bytes) {
        Ok(img) => Ok(img),
        Err(cause) => Err(TranscodeError::DecodeFailed { cause }),
    }
}

} // verus!
