//! What is recorded of an image once its bytes are at hand: its size and a
//! digest of its content.

use crate::encoding::{decoded_dimensions, sha256, sha256_digest};
use vstd::prelude::*;
use vstd::string::StringExecFns;

verus! {

/// Why an image's bytes could not be read.
#[derive(Debug)]
pub enum Error {
    /// The decoder refused the bytes.
    Image(::image::ImageError),
}

/// The size of an image and the digest of its bytes.
#[derive(Clone, Debug, PartialEq, Eq)]
pub struct ImageMetadata {
    pub height: u32,
    pub width: u32,
    pub hash: String,
}

/// The upper-case hexadecimal digit for a value below sixteen.
pub open spec fn hex_digit(value: int) -> char {
    if value == 0 {
        '0'
    } else if value == 1 {
        '1'
    } else if value == 2 {
        '2'
    } else if value == 3 {
        '3'
    } else if value == 4 {
        '4'
    } else if value == 5 {
        '5'
    } else if value == 6 {
        '6'
    } else if value == 7 {
        '7'
    } else if value == 8 {
        '8'
    } else if value == 9 {
        '9'
    } else if value == 10 {
        'A'
    } else if value == 11 {
        'B'
    } else if value == 12 {
        'C'
    } else if value == 13 {
        'D'
    } else if value == 14 {
        'E'
    } else {
        'F'
    }
}

/// The bytes written out in upper-case hexadecimal, two digits for each
/// byte, the high one first.
pub open spec fn hex_upper(bytes: Seq<u8>) -> Seq<char> {
    Seq::new(
        2 * bytes.len(),
        |i: int|
            if i % 2 == 0 {
                hex_digit(bytes[i / 2] as int / 16)
            } else {
                hex_digit(bytes[i / 2] as int % 16)
            },
    )
}

fn digit(value: u8) -> (text: &'static str)
    requires
        value < 16,
    ensures
        text@ == seq![hex_digit(value as int)],
{
    proof {
        reveal_strlit("0");
        reveal_strlit("1");
        reveal_strlit("2");
        reveal_strlit("3");
        reveal_strlit("4");
        reveal_strlit("5");
        reveal_strlit("6");
        reveal_strlit("7");
        reveal_strlit("8");
        reveal_strlit("9");
        reveal_strlit("A");
        reveal_strlit("B");
        reveal_strlit("C");
        reveal_strlit("D");
        reveal_strlit("E");
        reveal_strlit("F");
    }
    let text = match value {
        0 => "0",
        1 => "1",
        2 => "2",
        3 => "3",
        4 => "4",
        5 => "5",
        6 => "6",
        7 => "7",
        8 => "8",
        9 => "9",
        10 => "A",
        11 => "B",
        12 => "C",
        13 => "D",
        14 => "E",
        _ => "F",
    };
    assert(text@ =~= seq![hex_digit(value as int)]);
    text
}

/// Writes `bytes` out in upper-case hexadecimal.
pub fn to_hex_upper(bytes: &[u8]) -> (text: String)
    ensures
        text@ == hex_upper(bytes@),
{
    let mut text = String::new();
    let mut i: usize = 0;
    while i < bytes.len()
        invariant
            i <= bytes@.len(),
            text@.len() == 2 * i,
            forall|k: int| 0 <= k < 2 * i ==> text@[k] == hex_upper(bytes@)[k],
        decreases bytes@.len() - i,
    {
        let byte = bytes[i];
        text.append(digit(byte / 16));
        text.append(digit(byte % 16));
        i += 1;
    }
    assert(text@ =~= hex_upper(bytes@));
    text
}

/// The digest under which an image's content is recorded: the SHA-256
/// digest of its bytes, in upper-case hexadecimal.
pub open spec fn content_hash(bytes: Seq<u8>) -> Seq<char> {
    hex_upper(sha256(bytes))
}

pub fn get_hash(b: &[u8]) -> (hash: String)
    ensures
        hash@ == content_hash(b@),
        hash@.len() == 64,
{
    let digest = sha256_digest(b);
    to_hex_upper(digest.as_slice())
}

/// The size as it is recorded, from what the decoder made of the bytes: the
/// height first, then the width. The decoder's refusal is passed on.
pub fn size_of_decoded(decoded: Result<(u32, u32), ::image::ImageError>) -> (size: Result<
    (u32, u32),
    Error,
>)
    ensures
        match decoded {
            Ok((width, height)) => size == Ok::<(u32, u32), Error>((height, width)),
            Err(e) => size == Err::<(u32, u32), Error>(Error::Image(e)),
        },
{
    match decoded {
        Ok((width, height)) => Ok((height, width)),
        Err(e) => Err(Error::Image(e)),
    }
}

/// The height and the width of the image that `b` holds. Whether the bytes
/// are an image, and of what size, is the decoder's word, and the decoder
/// goes by the formats that the process has registered with it: nothing is
/// promised of the result here. What is made of the decoder's answer is
/// stated of [`size_of_decoded`].
pub fn get_size(b: &[u8]) -> Result<(u32, u32), Error> {
    size_of_decoded(decoded_dimensions(b))
}

/// The record of an image from its size and its bytes.
pub fn metadata_from(size: Result<(u32, u32), Error>, body: &[u8]) -> (metadata: Result<
    ImageMetadata,
    Error,
>)
    ensures
        match size {
            Ok((height, width)) => metadata is Ok && metadata->Ok_0.height == height
                && metadata->Ok_0.width == width && metadata->Ok_0.hash@ == content_hash(body@),
            Err(e) => metadata == Err::<ImageMetadata, Error>(e),
        },
{
    match size {
        Ok((height, width)) => Ok(ImageMetadata { height, width, hash: get_hash(body) }),
        Err(e) => Err(e),
    }
}

/// The record of the image that `body` holds: what is kept of a poster's
/// image once it has been fetched. Whether the bytes are an image, and of
/// what size, is the decoder's word; the hash is that of the bytes.
pub fn get_metadata(body: &[u8]) -> (metadata: Result<ImageMetadata, Error>)
    ensures
        metadata is Ok ==> metadata->Ok_0.hash@ == content_hash(body@),
{
    metadata_from(get_size(body), body)
}

} // verus!
