//! Which image of a poster is meant.

use crate::text::same_text;
use vstd::prelude::*;

verus! {

/// The texture of a poster that is asked for.
#[derive(Clone, Copy, Debug, PartialEq, Eq, Structural)]
pub enum PosterImageKind {
    Albedo,
    Emissive,
    Normal,
}

impl Default for PosterImageKind {
    fn default() -> (kind: Self)
        ensures
            kind == PosterImageKind::Albedo,
    {
        PosterImageKind::Albedo
    }
}

impl PosterImageKind {
    pub open spec fn sql_text(self) -> Seq<char> {
        match self {
            PosterImageKind::Albedo => "albedo"@,
            PosterImageKind::Emissive => "emissive"@,
            PosterImageKind::Normal => "normal"@,
        }
    }

    /// The kind's name in the durable store's `texture_kind` type.
    pub fn sql_name(&self) -> (name: &'static str)
        ensures
            name@ == self.sql_text(),
    {
        match self {
            PosterImageKind::Albedo => "albedo",
            PosterImageKind::Emissive => "emissive",
            PosterImageKind::Normal => "normal",
        }
    }
}

/// One image of one poster: what the durable store is asked a URL for.
#[derive(Clone, Copy, Debug, PartialEq, Eq, Structural)]
pub struct PosterImage {
    pub poster_id: i64,
    pub kind: PosterImageKind,
}

/// What a request is told when its image kind is none of the known ones.
pub const UNKNOWN_IMAGE_KIND: &'static str = "Unable to parse image kind.";

/// The kind that a query's one-letter code stands for, if it stands for one.
pub open spec fn image_kind_of(code: Seq<char>) -> Option<PosterImageKind> {
    if code == "a"@ {
        Some(PosterImageKind::Albedo)
    } else if code == "n"@ {
        Some(PosterImageKind::Normal)
    } else if code == "e"@ {
        Some(PosterImageKind::Emissive)
    } else {
        None
    }
}

/// Reads the image kind from a query's code: `a`, `n` or `e`. Any other
/// text is refused with [`UNKNOWN_IMAGE_KIND`].
pub fn image_kind_deserializer(code: &str) -> (parsed: Result<PosterImageKind, &'static str>)
    ensures
        match image_kind_of(code@) {
            Some(kind) => parsed == Ok::<PosterImageKind, &'static str>(kind),
            None => parsed == Err::<PosterImageKind, &'static str>(UNKNOWN_IMAGE_KIND),
        },
{
    if same_text(code, "a") {
        Ok(PosterImageKind::Albedo)
    } else if same_text(code, "n") {
        Ok(PosterImageKind::Normal)
    } else if same_text(code, "e") {
        Ok(PosterImageKind::Emissive)
    } else {
        Err(UNKNOWN_IMAGE_KIND)
    }
}

} // verus!
