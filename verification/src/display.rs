//! Display-interface image data structures, shared with the audio player's
//! item metadata.
//!
//! Pixel dimensions use `u16`, matching the largest sizes the display
//! specification names; the wire format carries plain integers.

use vstd::prelude::*;
use vstd::string::*;

use crate::codec::{str_eq, OpenEnum};

verus! {

/// An image offered to the device in one or more sizes.
#[derive(Debug, Clone)]
pub struct Image {
    pub content_description: Option<String>,
    pub sources: Vec<ImageInstance>,
}

/// One concrete rendition of an image.
#[derive(Debug, Clone)]
pub struct ImageInstance {
    pub url: String,
    pub size: Option<ImageSize>,
    pub width_pixels: Option<u16>,
    pub height_pixels: Option<u16>,
}

/// A named display image size; the wire strings are upper snake case.
#[derive(Debug, Clone, PartialEq)]
pub enum ImageSize {
    XSmall,
    Small,
    Medium,
    Large,
    XLarge,
    /// Any unrecognized value for this enumeration.
    Other(String),
}

impl OpenEnum for ImageSize {
    open spec fn wire_spec(&self) -> Seq<char> {
        match self {
            ImageSize::XSmall => "X_SMALL"@,
            ImageSize::Small => "SMALL"@,
            ImageSize::Medium => "MEDIUM"@,
            ImageSize::Large => "LARGE"@,
            ImageSize::XLarge => "X_LARGE"@,
            ImageSize::Other(s) => s@,
        }
    }

    open spec fn known_of(s: Seq<char>) -> Option<ImageSize> {
        if s == "X_SMALL"@ {
            Some(ImageSize::XSmall)
        } else if s == "SMALL"@ {
            Some(ImageSize::Small)
        } else if s == "MEDIUM"@ {
            Some(ImageSize::Medium)
        } else if s == "LARGE"@ {
            Some(ImageSize::Large)
        } else if s == "X_LARGE"@ {
            Some(ImageSize::XLarge)
        } else {
            None
        }
    }

    open spec fn is_unknown(&self) -> bool {
        self matches ImageSize::Other(_)
    }

    fn as_str(&self) -> (r: &str) {
        match self {
            ImageSize::XSmall => "X_SMALL",
            ImageSize::Small => "SMALL",
            ImageSize::Medium => "MEDIUM",
            ImageSize::Large => "LARGE",
            ImageSize::XLarge => "X_LARGE",
            ImageSize::Other(s) => s.as_str(),
        }
    }

    fn from_wire(s: &str) -> (r: ImageSize) {
        if str_eq(s, "X_SMALL") {
            ImageSize::XSmall
        } else if str_eq(s, "SMALL") {
            ImageSize::Small
        } else if str_eq(s, "MEDIUM") {
            ImageSize::Medium
        } else if str_eq(s, "LARGE") {
            ImageSize::Large
        } else if str_eq(s, "X_LARGE") {
            ImageSize::XLarge
        } else {
            ImageSize::Other(s.to_owned())
        }
    }

    proof fn lemma_known_round_trip(v: ImageSize) {
        reveal_strlit("X_SMALL");
        reveal_strlit("SMALL");
        reveal_strlit("MEDIUM");
        reveal_strlit("LARGE");
        reveal_strlit("X_LARGE");
        assert("X_SMALL"@ =~= seq!['X', '_', 'S', 'M', 'A', 'L', 'L']);
        assert("SMALL"@ =~= seq!['S', 'M', 'A', 'L', 'L']);
        assert("MEDIUM"@ =~= seq!['M', 'E', 'D', 'I', 'U', 'M']);
        assert("LARGE"@ =~= seq!['L', 'A', 'R', 'G', 'E']);
        assert("X_LARGE"@ =~= seq!['X', '_', 'L', 'A', 'R', 'G', 'E']);
        match v {
            ImageSize::XSmall => assert(ImageSize::known_of(v.wire_spec()) == Some(v)),
            ImageSize::Small => assert(ImageSize::known_of(v.wire_spec()) == Some(v)),
            ImageSize::Medium => assert(ImageSize::known_of(v.wire_spec()) == Some(v)),
            ImageSize::Large => assert(ImageSize::known_of(v.wire_spec()) == Some(v)),
            ImageSize::XLarge => assert(ImageSize::known_of(v.wire_spec()) == Some(v)),
            ImageSize::Other(_) => assert(false),
        }
    }
}


/// A string outside ImageSize's known wire set round-trips through the unknown
/// carrier: decoding yields `Other` holding it, and `Other` encodes it back
/// verbatim.
pub proof fn lemma_image_size_unknown_round_trip(o: String)
    requires
        ImageSize::known_of(o@) is None,
    ensures
        ImageSize::Other(o).wire_spec() == o@,
        ImageSize::Other(o).is_unknown(),
{
}

} // verus!
