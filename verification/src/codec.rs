//! Reading object data bytes: the byte-descrambling codec for obfuscated
//! files, and UTF-8 decoding.

use vstd::prelude::*;
use vstd::slice::slice_to_vec;
use vstd::utf8::{decode_utf8, valid_utf8};

use crate::error::{Error, ErrorV};
use vstd::string::StrSliceExecFns;

verus! {

/// The cipher key of the obfuscated on-disk format: the bytes of
/// `odBearBecauseHeIsVeryGoodSiuHungIsAGo`, cycled over the data.
pub open spec fn spec_caesar_key() -> Seq<u8> {
    seq![
        111u8, 100u8, 66u8, 101u8, 97u8, 114u8, 66u8, 101u8, 99u8, 97u8, 117u8, 115u8, 101u8,
        72u8, 101u8, 73u8, 115u8, 86u8, 101u8, 114u8, 121u8, 71u8, 111u8, 111u8, 100u8, 83u8,
        105u8, 117u8, 72u8, 117u8, 110u8, 103u8, 73u8, 115u8, 65u8, 71u8, 111u8,
    ]
}

/// What decoding obfuscated bytes yields: the first 123 bytes are a fixed
/// header and are dropped; each remaining byte has the cycled key byte
/// subtracted, wrapping.
pub open spec fn spec_decoded(bytes: Seq<u8>) -> Seq<u8> {
    if bytes.len() <= 123 {
        Seq::empty()
    } else {
        Seq::new(
            (bytes.len() - 123) as nat,
            |k: int| (((bytes[123 + k] as int) - (spec_caesar_key()[k % 37] as int)) % 256) as u8,
        )
    }
}

/// Relies on `lf2_codec::DataDecoder::decode`: it skips the 123-byte
/// header, then subtracts the cycled cipher key byte from each remaining
/// byte, wrapping. Reading from a byte slice cannot fail, so decoding a
/// slice always succeeds.
#[verifier::external_body]
fn decode_data(bytes: &[u8]) -> (r: Vec<u8>)
    ensures
        r@ == spec_decoded(bytes@),
{
    match lf2_codec::DataDecoder::decode(bytes) {
        Ok(v) => v,
        // Unreachable: reading from a slice never returns an error.
        Err(_) => Vec::new(),
    }
}

/// Relies on `String::from_utf8`: it succeeds exactly on valid UTF-8 and
/// decodes the bytes to the characters they encode.
#[verifier::external_body]
fn string_from_utf8(bytes: Vec<u8>) -> (r: Option<String>)
    ensures
        r is Some <==> valid_utf8(bytes@),
        r matches Some(s) ==> s@ == decode_utf8(bytes@),
{
    match String::from_utf8(bytes) {
        Ok(s) => Some(s),
        Err(_) => None,
    }
}

/// The text a data file's bytes hold: descrambled first when the file is
/// an obfuscated variant, then read as UTF-8. Bytes that are not valid
/// UTF-8 after decoding are the distinct invalid-UTF-8 error, which points
/// at a corrupted or incompatible source file rather than a grammar
/// problem.
pub open spec fn spec_text_of(bytes: Seq<u8>, decode: bool) -> Result<Seq<char>, ErrorV> {
    let data = if decode {
        spec_decoded(bytes)
    } else {
        bytes
    };
    if valid_utf8(data) {
        Ok(decode_utf8(data))
    } else {
        Err(ErrorV::DecodedDataInvalidUtf8)
    }
}

/// Turns raw file bytes into object data text, descrambling them first
/// when `decode` is set (for `.dat` files).
pub fn decoded_text(bytes: &[u8], decode: bool) -> (r: Result<String, Error>)
    ensures
        match r {
            Ok(s) => spec_text_of(bytes@, decode) == Ok::<Seq<char>, ErrorV>(s@),
            Err(e) => spec_text_of(bytes@, decode) == Err::<Seq<char>, ErrorV>(e@),
        },
{
    let data: Vec<u8> = if decode {
        decode_data(bytes)
    } else {
        slice_to_vec(bytes)
    };
    match string_from_utf8(data) {
        Some(s) => Ok(s),
        None => Err(Error::DecodedDataInvalidUtf8),
    }
}

/// Whether a path names an obfuscated data file: its extension is `dat`.
pub open spec fn spec_needs_decode(path: Seq<char>) -> bool {
    path.len() >= 4 && path.subrange(path.len() - 4, path.len() as int) == ".dat"@
}

/// Whether the file at `path` must be descrambled before parsing.
pub fn needs_decode(path: &str) -> (r: bool)
    ensures
        r == spec_needs_decode(path@),
{
    let n = path.unicode_len();
    if n < 4 {
        return false;
    }
    let r = path.get_char(n - 4) == '.' && path.get_char(n - 3) == 'd' && path.get_char(n - 2)
        == 'a' && path.get_char(n - 1) == 't';
    proof {
        reveal_strlit(".dat");
        if r {
            assert(path@.subrange(path@.len() - 4, path@.len() as int) =~= ".dat"@);
        } else {
            assert(path@.subrange(path@.len() - 4, path@.len() as int) != ".dat"@) by {
                if path@.subrange(path@.len() - 4, path@.len() as int) == ".dat"@ {
                    assert(path@.subrange(path@.len() - 4, path@.len() as int)[0] == '.');
                    assert(path@.subrange(path@.len() - 4, path@.len() as int)[1] == 'd');
                    assert(path@.subrange(path@.len() - 4, path@.len() as int)[2] == 'a');
                    assert(path@.subrange(path@.len() - 4, path@.len() as int)[3] == 't');
                }
            }
        }
    }
    r
}

/// Law: the codec is transparent. The text read from obfuscated bytes is
/// the text read plainly from their decoding, so both routes to the parser
/// carry the same characters.
pub proof fn lemma_codec_transparency(enc: Seq<u8>, plain: Seq<u8>)
    requires
        spec_decoded(enc) == plain,
    ensures
        spec_text_of(enc, true) == spec_text_of(plain, false),
{
}

} // verus!
