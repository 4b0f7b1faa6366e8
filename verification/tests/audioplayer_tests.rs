use alexa_sdk::audioplayer::{AudioItem, AudioItemMetadata, PlayDirective, Stream};
use alexa_sdk::display::{Image, ImageInstance, ImageSize};
use alexa_sdk::response::{Directive, PlayBehavior, ResponseEnvelope};

fn sample_stream() -> Stream {
    Stream {
        url: String::from("https://example.com/audio.mp3"),
        token: String::from("track-1"),
        offset_in_milliseconds: 0,
        expected_previous_token: None,
        caption_data: None,
    }
}

#[test]
fn play_directive_becomes_play_variant() {
    let play = PlayDirective {
        audio_item: AudioItem { stream: sample_stream(), metadata: None },
        play_behavior: PlayBehavior::ReplaceAll,
    };
    let d: Directive = play.into();
    match d {
        Directive::Play(p) => {
            assert_eq!(p.play_behavior, PlayBehavior::ReplaceAll);
            assert_eq!(p.audio_item.stream.token, "track-1");
        }
        _ => panic!("conversion changed the directive kind"),
    }
}

#[test]
fn directives_keep_caller_order() {
    let first = PlayDirective {
        audio_item: AudioItem {
            stream: sample_stream(),
            metadata: Some(AudioItemMetadata {
                title: Some(String::from("Weird Fishes")),
                subtitle: None,
                art: Some(Image {
                    content_description: None,
                    sources: vec![ImageInstance {
                        url: String::from("https://example.com/art.png"),
                        size: Some(ImageSize::Medium),
                        width_pixels: None,
                        height_pixels: None,
                    }],
                }),
                background_image: None,
            }),
        },
        play_behavior: PlayBehavior::Enqueue,
    };
    let mut r = ResponseEnvelope::new(false);
    r.response.directives = Some(vec![Directive::Play(first), Directive::Stop]);
    let ds = r.response.directives.as_ref().unwrap();
    assert_eq!(ds.len(), 2);
    assert!(matches!(ds[0], Directive::Play(_)));
    assert!(matches!(ds[1], Directive::Stop));
}
