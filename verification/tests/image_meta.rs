use imagefork::image_meta::{
    get_hash, get_metadata, get_size, metadata_from, size_of_decoded, to_hex_upper, Error,
    ImageMetadata,
};

/// A greyscale PNG, three pixels wide and two high.
const PNG_3_BY_2: [u8; 73] = [
    137, 80, 78, 71, 13, 10, 26, 10, 0, 0, 0, 13, 73, 72, 68, 82, 0, 0, 0, 3, 0, 0, 0, 2, 8, 0, 0,
    0, 0, 184, 31, 57, 198, 0, 0, 0, 16, 73, 68, 65, 84, 120, 156, 99, 224, 18, 145, 99, 224, 22,
    149, 7, 0, 1, 198, 0, 124, 33, 33, 23, 255, 0, 0, 0, 0, 73, 69, 78, 68, 174, 66, 96, 130,
];

#[test]
fn size_is_height_then_width() {
    assert!(matches!(get_size(&PNG_3_BY_2), Ok((2, 3))));
}

#[test]
fn size_of_what_is_no_image() {
    assert!(matches!(get_size(b"not an image"), Err(Error::Image(_))));
    assert!(matches!(get_size(b""), Err(Error::Image(_))));
    assert!(matches!(get_size(&PNG_3_BY_2[..40]), Err(Error::Image(_))));
}

#[test]
fn decoded_size_is_turned_round() {
    assert!(matches!(size_of_decoded(Ok((640, 480))), Ok((480, 640))));
    assert!(matches!(size_of_decoded(Ok((0, u32::MAX))), Ok((u32::MAX, 0))));
}

#[test]
fn hash_of_known_bytes() {
    assert_eq!(
        get_hash(b""),
        "E3B0C44298FC1C149AFBF4C8996FB92427AE41E4649B934CA495991B7852B855"
    );
    assert_eq!(
        get_hash(b"hello"),
        "2CF24DBA5FB0A30E26E83B2AC5B9E29E1B161E5C1FA7425E73043362938B9824"
    );
    assert_eq!(get_hash(&[7u8; 5000]).len(), 64);
}

#[test]
fn hex_is_upper_case_with_two_digits_a_byte() {
    assert_eq!(to_hex_upper(&[]), "");
    assert_eq!(to_hex_upper(&[0]), "00");
    assert_eq!(to_hex_upper(&[0x0a, 0xa0, 0xff, 0x10, 0x01]), "0AA0FF1001");
    assert_eq!(to_hex_upper(&[0x12, 0x34, 0x56, 0x78, 0x9a, 0xbc, 0xde, 0xf0]), "123456789ABCDEF0");
}

#[test]
fn metadata_of_an_image() {
    let metadata = get_metadata(&PNG_3_BY_2).unwrap();
    assert_eq!(
        metadata,
        ImageMetadata {
            height: 2,
            width: 3,
            hash: "49038F47226A10ABC48A81F86A6AAC07202E772B4FA641430709FFB29B187C18".to_string(),
        }
    );
}

#[test]
fn metadata_of_what_is_no_image() {
    assert!(matches!(get_metadata(b"GIF89a but not really"), Err(Error::Image(_))));
}

#[test]
fn metadata_from_a_known_size() {
    let metadata = metadata_from(Ok((10, 20)), b"hello").unwrap();
    assert_eq!(metadata.height, 10);
    assert_eq!(metadata.width, 20);
    assert_eq!(
        metadata.hash,
        "2CF24DBA5FB0A30E26E83B2AC5B9E29E1B161E5C1FA7425E73043362938B9824"
    );
    let refused = get_size(b"junk");
    assert!(refused.is_err());
    assert!(matches!(metadata_from(refused, b"junk"), Err(Error::Image(_))));
}
