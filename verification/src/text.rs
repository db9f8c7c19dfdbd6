use vstd::prelude::*;

use crate::errors::CompileError;
use vstd::utf8::decode_utf8;
use vstd::utf8::encode_utf8;
use vstd::utf8::valid_utf8;

verus! {

/// Relies on String::from_utf8: it returns `Ok` exactly when the bytes are
/// valid UTF-8, and the string it then returns holds the UTF-8 decoding of
/// those bytes.
#[verifier::external_body]
fn string_from_utf8(bytes: Vec<u8>) -> (r: Result<String, ()>)
    ensures
        r is Ok <==> valid_utf8(bytes@),
        r matches Ok(s) ==> s@ == decode_utf8(bytes@),
{
    match String::from_utf8(bytes) {
        Ok(s) => Ok(s),
        Err(_) => Err(()),
    }
}

/// Decode bytes captured from the pipeline, or read back from a saved file,
/// into text: the UTF-8 decoding of the bytes, or `EncodingError` exactly when
/// they are not valid UTF-8.
pub fn decode_text(bytes: Vec<u8>) -> (r: Result<String, CompileError>)
    ensures
        r is Ok <==> valid_utf8(bytes@),
        r matches Ok(s) ==> s@ == decode_utf8(bytes@),
        r matches Err(e) ==> e is EncodingError,
{
    match string_from_utf8(bytes) {
        Ok(s) => Ok(s),
        Err(()) => Err(CompileError::EncodingError),
    }
}

/// Law: text written out as UTF-8 bytes and decoded back is reproduced
/// exactly — a buffer saved to disk and loaded again, or preview text saved
/// and reloaded as source, is byte-for-byte and character-for-character the
/// same, whatever the text.
pub proof fn lemma_text_bytes_round_trip(text: Seq<char>)
    ensures
        valid_utf8(encode_utf8(text)),
        decode_utf8(encode_utf8(text)) == text,
{
    broadcast use vstd::utf8::encode_utf8_valid_utf8;
    broadcast use vstd::utf8::encode_utf8_decode_utf8;

}

} // verus!
