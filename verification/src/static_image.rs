//! The images that are served from the program itself, when there is no
//! poster to redirect to.

use crate::poster_image::PosterImageKind;
use vstd::prelude::*;

verus! {

/// The format of an embedded image.
#[derive(Clone, Copy, Debug, PartialEq, Eq, Structural)]
pub enum ImageFormat {
    Webp,
    Png,
}

/// The embedded files.
#[derive(Clone, Copy, Debug, PartialEq, Eq, Structural)]
pub enum Asset {
    Error,
    Safe,
    BlackPixel,
    DefaultNormalPixel,
}

/// An embedded image: which file, and the format it is served as.
#[derive(Clone, Copy, Debug, PartialEq, Eq, Structural)]
pub struct StaticImage {
    pub format: ImageFormat,
    pub data: Asset,
}

/// The images of one canned picture. Only the albedo is always there.
#[derive(Clone, Copy, Debug, PartialEq, Eq, Structural)]
pub struct CannedImage {
    pub albedo: StaticImage,
    pub emissive: Option<StaticImage>,
    pub normal: Option<StaticImage>,
}

/// Served as the emissive texture of a picture that has none.
pub open spec fn black_pixel() -> StaticImage {
    StaticImage { format: ImageFormat::Png, data: Asset::BlackPixel }
}

/// Served as the normal map of a picture that has none.
pub open spec fn default_normal_pixel() -> StaticImage {
    StaticImage { format: ImageFormat::Png, data: Asset::DefaultNormalPixel }
}

impl ImageFormat {
    pub open spec fn mime(self) -> Seq<char> {
        match self {
            ImageFormat::Webp => "image/webp"@,
            ImageFormat::Png => "image/png"@,
        }
    }

    /// The media type that the format is announced with.
    pub fn media_type(&self) -> (text: &'static str)
        ensures
            text@ == self.mime(),
    {
        match self {
            ImageFormat::Webp => "image/webp",
            ImageFormat::Png => "image/png",
        }
    }
}

impl Asset {
    pub open spec fn file_text(self) -> Seq<char> {
        match self {
            Asset::Error => "error.webp"@,
            Asset::Safe => "safe.webp"@,
            Asset::BlackPixel => "black_pixel.png"@,
            Asset::DefaultNormalPixel => "default_normal_pixel.png"@,
        }
    }

    /// The name of the file that holds the image.
    pub fn file_name(&self) -> (name: &'static str)
        ensures
            name@ == self.file_text(),
    {
        match self {
            Asset::Error => "error.webp",
            Asset::Safe => "safe.webp",
            Asset::BlackPixel => "black_pixel.png",
            Asset::DefaultNormalPixel => "default_normal_pixel.png",
        }
    }

    /// The format that the file is in.
    pub fn format(&self) -> (format: ImageFormat)
        ensures
            format == match *self {
                Asset::BlackPixel | Asset::DefaultNormalPixel => ImageFormat::Png,
                _ => ImageFormat::Webp,
            },
    {
        match self {
            Asset::BlackPixel | Asset::DefaultNormalPixel => ImageFormat::Png,
            _ => ImageFormat::Webp,
        }
    }
}

impl StaticImage {
    pub fn new(format: ImageFormat, data: Asset) -> (image: Self)
        ensures
            image == (StaticImage { format, data }),
    {
        StaticImage { format, data }
    }
}

impl CannedImage {
    /// The image served for `kind`: the picture's own where it has one,
    /// else a single pixel that leaves the texture without effect.
    pub open spec fn image_for(self, kind: PosterImageKind) -> StaticImage {
        match kind {
            PosterImageKind::Albedo => self.albedo,
            PosterImageKind::Emissive => match self.emissive {
                Some(image) => image,
                None => black_pixel(),
            },
            PosterImageKind::Normal => match self.normal {
                Some(image) => image,
                None => default_normal_pixel(),
            },
        }
    }

    /// The picture that stands for a failure.
    pub open spec fn error_spec() -> CannedImage {
        CannedImage {
            albedo: StaticImage { format: ImageFormat::Webp, data: Asset::Error },
            emissive: None,
            normal: None,
        }
    }

    /// The picture that is safe to show when there is no poster.
    pub open spec fn fallback_spec() -> CannedImage {
        CannedImage {
            albedo: StaticImage { format: ImageFormat::Webp, data: Asset::Safe },
            emissive: None,
            normal: None,
        }
    }

    pub fn image(&self, kind: PosterImageKind) -> (image: StaticImage)
        ensures
            image == self.image_for(kind),
    {
        match kind {
            PosterImageKind::Albedo => self.albedo,
            PosterImageKind::Emissive => match self.emissive {
                Some(image) => image,
                None => StaticImage::new(ImageFormat::Png, Asset::BlackPixel),
            },
            PosterImageKind::Normal => match self.normal {
                Some(image) => image,
                None => StaticImage::new(ImageFormat::Png, Asset::DefaultNormalPixel),
            },
        }
    }

    #[verifier::when_used_as_spec(error_spec)]
    pub fn error() -> (canned: Self)
        ensures
            canned == Self::error_spec(),
    {
        CannedImage {
            albedo: StaticImage::new(ImageFormat::Webp, Asset::Error),
            emissive: None,
            normal: None,
        }
    }

    #[verifier::when_used_as_spec(fallback_spec)]
    pub fn fallback() -> (canned: Self)
        ensures
            canned == Self::fallback_spec(),
    {
        CannedImage {
            albedo: StaticImage::new(ImageFormat::Webp, Asset::Safe),
            emissive: None,
            normal: None,
        }
    }
}

} // verus!
