//! Digests, text encodings and image decoding that the library takes from
//! other crates.
//!
//! Nothing in this file is proved: each function states what the crate it
//! calls documents.

use base64::Engine;
use sha2::Digest;
use vstd::prelude::*;

verus! {

/// The SHA-256 digest of `data`, as a sequence of 32 bytes.
pub uninterp spec fn sha256(data: Seq<u8>) -> Seq<u8>;

/// The URL-safe base64 text of `data`, without padding.
pub uninterp spec fn base64_url_no_pad(data: Seq<u8>) -> Seq<char>;

/// Whether `c` belongs to the URL-safe base64 alphabet: the letters, the
/// digits, `-` and `_`.
pub open spec fn is_url_safe(c: char) -> bool {
    ||| 'A' <= c <= 'Z'
    ||| 'a' <= c <= 'z'
    ||| '0' <= c <= '9'
    ||| c == '-'
    ||| c == '_'
}

/// How many characters unpadded base64 takes for `n` bytes: four for each
/// full group of three bytes, two for one byte left over, three for two.
pub open spec fn base64_no_pad_len(n: nat) -> nat {
    (4 * n + 2) / 3
}

/// Calls `sha2::Sha256::digest` (the `Digest` trait's one-shot function).
/// Assumed: the 32 bytes returned are a function of the input bytes alone.
#[verifier::external_body]
pub(crate) fn sha256_digest(data: &[u8]) -> (digest: [u8; 32])
    ensures
        digest@ == sha256(data@),
{
    sha2::Sha256::digest(data).into()
}

/// Calls `Engine::encode` on `base64::prelude::BASE64_URL_SAFE_NO_PAD`.
/// Assumed: the text is a function of the input bytes alone, it has the
/// length that `base64::encoded_len` computes for an engine without padding,
/// and each of its characters is a symbol of `base64::alphabet::URL_SAFE`,
/// the table that the engine encodes by. The call panics when that length
/// overflows `usize`, which the precondition rules out.
#[verifier::external_body]
pub(crate) fn encode_url_no_pad(data: &[u8]) -> (text: String)
    requires
        4 * (data@.len() / 3) + 3 <= usize::MAX,
    ensures
        text@ == base64_url_no_pad(data@),
        text@.len() == base64_no_pad_len(data@.len()),
        forall|i: int| 0 <= i < text@.len() ==> is_url_safe(#[trigger] text@[i]),
{
    base64::prelude::BASE64_URL_SAFE_NO_PAD.encode(data)
}

/// `image::ImageError`, the error of the `image` crate's decoders. The
/// library carries it through and looks at nothing inside it.
#[verifier::external_type_specification]
#[verifier::external_body]
pub struct ExImageError(::image::ImageError);

/// Calls `image::load_from_memory`, then `width` and `height` on the image
/// it decoded, and returns them in that order. Nothing is assumed of the
/// outcome, for any input: which formats are decoded depends on how the
/// `image` crate was built, and the formats and decoders that the process
/// has registered with it are tried before the crate's own.
#[verifier::external_body]
pub(crate) fn decoded_dimensions(data: &[u8]) -> Result<(u32, u32), ::image::ImageError> {
    match ::image::load_from_memory(data) {
        Ok(decoded) => Ok((decoded.width(), decoded.height())),
        Err(refused) => Err(refused),
    }
}

} // verus!
