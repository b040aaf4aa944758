use imagefork::poster_image::{image_kind_deserializer, PosterImageKind, UNKNOWN_IMAGE_KIND};
use imagefork::static_image::{Asset, CannedImage, ImageFormat, StaticImage};
use imagefork::text::same_text;

#[test]
fn image_kind_codes() {
    assert_eq!(image_kind_deserializer("a"), Ok(PosterImageKind::Albedo));
    assert_eq!(image_kind_deserializer("n"), Ok(PosterImageKind::Normal));
    assert_eq!(image_kind_deserializer("e"), Ok(PosterImageKind::Emissive));
}

#[test]
fn unknown_image_kind_codes() {
    for code in ["", "A", "albedo", "x", "an", " a", "a ", "\u{e9}"] {
        assert_eq!(image_kind_deserializer(code), Err("Unable to parse image kind."));
    }
    assert_eq!(UNKNOWN_IMAGE_KIND, "Unable to parse image kind.");
}

#[test]
fn default_image_kind_is_albedo() {
    assert_eq!(PosterImageKind::default(), PosterImageKind::Albedo);
}

#[test]
fn picture_with_textures_of_its_own_serves_them() {
    let own = |data| StaticImage { format: ImageFormat::Webp, data };
    let canned = CannedImage {
        albedo: own(Asset::Safe),
        emissive: Some(own(Asset::Error)),
        normal: Some(StaticImage { format: ImageFormat::Png, data: Asset::BlackPixel }),
    };
    assert_eq!(canned.image(PosterImageKind::Albedo), own(Asset::Safe));
    assert_eq!(canned.image(PosterImageKind::Emissive), own(Asset::Error));
    assert_eq!(
        canned.image(PosterImageKind::Normal),
        StaticImage { format: ImageFormat::Png, data: Asset::BlackPixel }
    );
    let half = CannedImage { albedo: own(Asset::Safe), emissive: Some(own(Asset::Error)), normal: None };
    assert_eq!(half.image(PosterImageKind::Emissive), own(Asset::Error));
    assert_eq!(
        half.image(PosterImageKind::Normal),
        StaticImage { format: ImageFormat::Png, data: Asset::DefaultNormalPixel }
    );
}

#[test]
fn missing_textures_are_single_pixels() {
    for (canned, albedo) in
        [(CannedImage::error(), Asset::Error), (CannedImage::fallback(), Asset::Safe)]
    {
        assert_eq!(
            canned.image(PosterImageKind::Albedo),
            StaticImage { format: ImageFormat::Webp, data: albedo }
        );
        assert_eq!(
            canned.image(PosterImageKind::Emissive),
            StaticImage { format: ImageFormat::Png, data: Asset::BlackPixel }
        );
        assert_eq!(
            canned.image(PosterImageKind::Normal),
            StaticImage { format: ImageFormat::Png, data: Asset::DefaultNormalPixel }
        );
    }
}

#[test]
fn media_types() {
    assert_eq!(ImageFormat::Webp.media_type(), "image/webp");
    assert_eq!(ImageFormat::Png.media_type(), "image/png");
    assert_eq!(
        StaticImage::new(ImageFormat::Png, Asset::BlackPixel),
        StaticImage { format: ImageFormat::Png, data: Asset::BlackPixel }
    );
}

#[test]
fn kinds_by_their_names_in_the_store() {
    assert_eq!(PosterImageKind::Albedo.sql_name(), "albedo");
    assert_eq!(PosterImageKind::Emissive.sql_name(), "emissive");
    assert_eq!(PosterImageKind::Normal.sql_name(), "normal");
}

#[test]
fn assets_by_file() {
    let files = [
        (Asset::Error, "error.webp", ImageFormat::Webp),
        (Asset::Safe, "safe.webp", ImageFormat::Webp),
        (Asset::BlackPixel, "black_pixel.png", ImageFormat::Png),
        (Asset::DefaultNormalPixel, "default_normal_pixel.png", ImageFormat::Png),
    ];
    for (asset, name, format) in files {
        assert_eq!(asset.file_name(), name);
        assert_eq!(asset.format(), format);
    }
}

#[test]
fn texts_are_the_same_when_their_characters_are() {
    assert!(same_text("", ""));
    assert!(same_text("yote", "yote"));
    assert!(!same_text("yote", "Yote"));
    assert!(!same_text("yote", "yote "));
    assert!(!same_text("a", ""));
    assert!(same_text("h\u{e9}", "h\u{e9}"));
    assert!(!same_text("he\u{301}", "h\u{e9}"));
}
