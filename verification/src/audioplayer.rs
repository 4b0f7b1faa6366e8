//! Audio-player interface datatypes: the payload of a play directive.

use vstd::prelude::*;

use crate::display::Image;
use crate::response::{Directive, PlayBehavior};

verus! {

/// Tells the device to begin playing an audio stream.
#[derive(Debug, Clone)]
pub struct PlayDirective {
    pub audio_item: AudioItem,
    pub play_behavior: PlayBehavior,
}

impl From<PlayDirective> for Directive {
    fn from(value: PlayDirective) -> (r: Directive) {
        Directive::Play(value)
    }
}

impl vstd::std_specs::convert::FromSpecImpl<PlayDirective> for Directive {
    open spec fn obeys_from_spec() -> bool {
        true
    }

    open spec fn from_spec(value: PlayDirective) -> Directive {
        Directive::Play(value)
    }
}

/// The stream to play and its presentation metadata.
#[derive(Debug, Clone)]
pub struct AudioItem {
    pub stream: Stream,
    pub metadata: Option<AudioItemMetadata>,
}

/// Where the audio lives and where playback starts.  The offset should be a
/// non-negative count of milliseconds, but the service has been observed to
/// send -1, so the field is signed.
#[derive(Debug, Clone)]
pub struct Stream {
    pub url: String,
    pub token: String,
    pub offset_in_milliseconds: i64,
    pub expected_previous_token: Option<String>,
    pub caption_data: Option<CaptionData>,
}

/// Closed-caption content accompanying a stream.
#[derive(Debug, Clone)]
pub struct CaptionData {
    pub data_type: Option<String>,
    pub content: Option<String>,
}

/// Titles and artwork shown while an audio item plays.
#[derive(Debug, Clone)]
pub struct AudioItemMetadata {
    pub title: Option<String>,
    pub subtitle: Option<String>,
    pub art: Option<Image>,
    pub background_image: Option<Image>,
}

} // verus!
