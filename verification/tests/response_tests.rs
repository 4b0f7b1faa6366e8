use alexa_sdk::kv::attr_get;
use alexa_sdk::response::{
    Card, CardType, Directive, Image, PlayBehavior, ResponseEnvelope, Speech, SpeechType, Version,
};

#[test]
fn response_test_version() {
    let r = ResponseEnvelope::simple("hello, world", "hello, dude");
    assert_eq!(r.version, Version::V1_0);
}

#[test]
fn test_builder() {
    let mut res = ResponseEnvelope::new(false)
        .card(Card::standard(
            "foo",
            "bar",
            Image {
                small_image_url: Some(String::from("baaz.png")),
                large_image_url: Some(String::from("baazLarge.png")),
            },
        ))
        .speech(Speech::plain("hello"));
    res.add_attribute("attr", "value");
    let t = res.response.card.as_ref().unwrap().title.as_ref().unwrap();
    assert_eq!(t, "foo");
    let txt = res.response.card.as_ref().unwrap().text.as_ref().unwrap();
    assert_eq!(txt, "bar");
    let attrs = res.session_attributes.as_ref().unwrap();
    assert_eq!(attr_get(attrs, "attr"), Some(&String::from("value")));
}

#[test]
fn test_builder_with_image_builder() {
    let mut res = ResponseEnvelope::new(false)
        .card(Card::standard(
            "foo",
            "bar",
            Image::new()
                .small_image_url(String::from("baaz.png"))
                .large_image_url(String::from("baazLarge.png")),
        ))
        .speech(Speech::plain("hello"));
    res.add_attribute("attr", "value");
    let t = res.response.card.as_ref().unwrap().title.as_ref().unwrap();
    assert_eq!(t, "foo");
    let txt = res.response.card.as_ref().unwrap().text.as_ref().unwrap();
    assert_eq!(txt, "bar");
    let card = res.response.card.as_ref().unwrap();
    let small_img = card.image.as_ref().unwrap().small_image_url.as_ref().unwrap();
    let large_img = card.image.as_ref().unwrap().large_image_url.as_ref().unwrap();

    assert_eq!(small_img, "baaz.png");
    assert_eq!(large_img, "baazLarge.png");

    let attrs = res.session_attributes.as_ref().unwrap();
    assert_eq!(attr_get(attrs, "attr"), Some(&String::from("value")));
}

#[test]
fn test_title() {
    let t = "hello, world";
    let r = ResponseEnvelope::simple(t, "hello, dude");

    assert_eq!(r.response.card.unwrap().title.unwrap(), t);
}

#[test]
fn test_text() {
    let t = "hello, dude";
    let r = ResponseEnvelope::simple("hello,world", t);

    assert_eq!(r.response.card.unwrap().content.unwrap(), t);
}

#[test]
fn test_should_end() {
    let r = ResponseEnvelope::simple("foo", "bar");
    assert_eq!(r.response.should_end_session, true);
}

#[test]
fn simple_response_shape() {
    let r = ResponseEnvelope::simple("T", "B");
    assert!(r.response.should_end_session);
    let card = r.response.card.as_ref().unwrap();
    assert_eq!(card.card_type, CardType::Simple);
    assert_eq!(card.title.as_deref(), Some("T"));
    assert_eq!(card.content.as_deref(), Some("B"));
    let speech = r.response.output_speech.as_ref().unwrap();
    assert_eq!(speech.speech_type, SpeechType::PlainText);
    assert_eq!(speech.text.as_deref(), Some("B"));
    assert_eq!(speech.ssml, None);
    // The optional parts stay absent, so serialization omits them.
    assert!(r.session_attributes.is_none());
    assert!(r.response.reprompt.is_none());
    assert!(r.response.directives.is_none());
}

#[test]
fn add_attribute_overwrites_per_key() {
    let mut r = ResponseEnvelope::new(false);
    r.add_attribute("k", "v1");
    r.add_attribute("k", "v2");
    let attrs = r.session_attributes.as_ref().unwrap();
    assert_eq!(attrs.len(), 1);
    assert_eq!(attrs[0], (String::from("k"), String::from("v2")));
}

#[test]
fn add_attribute_keeps_other_keys() {
    let mut r = ResponseEnvelope::end();
    r.add_attribute("a", "1");
    r.add_attribute("b", "2");
    r.add_attribute("a", "3");
    let attrs = r.session_attributes.as_ref().unwrap();
    assert_eq!(attrs.len(), 2);
    assert_eq!(attr_get(attrs, "a"), Some(&String::from("3")));
    assert_eq!(attr_get(attrs, "b"), Some(&String::from("2")));
}

#[test]
fn end_response_is_bare() {
    let r = ResponseEnvelope::end();
    assert!(r.response.should_end_session);
    assert!(r.response.output_speech.is_none());
    assert!(r.response.card.is_none());
    assert!(r.response.reprompt.is_none());
    assert!(r.response.directives.is_none());
    assert!(r.session_attributes.is_none());
}

#[test]
fn speech_constructors() {
    let p = Speech::plain("hi");
    assert_eq!(p.speech_type, SpeechType::PlainText);
    assert_eq!(p.text.as_deref(), Some("hi"));
    assert_eq!(p.ssml, None);
    assert_eq!(p.play_behavior, None);

    let mut s = Speech::ssml("<speak>hi</speak>");
    assert_eq!(s.speech_type, SpeechType::SSML);
    assert_eq!(s.ssml.as_deref(), Some("<speak>hi</speak>"));
    assert_eq!(s.text, None);
    s.play_behavior(PlayBehavior::Enqueue);
    assert_eq!(s.play_behavior, Some(PlayBehavior::Enqueue));
}

#[test]
fn card_constructors() {
    let link = Card::link_account();
    assert_eq!(link.card_type, CardType::LinkAccount);
    assert!(link.title.is_none() && link.content.is_none() && link.text.is_none());

    let perms = Card::ask_for_permission(vec![String::from(
        "alexa::profile:mobile_number:read",
    )]);
    assert_eq!(perms.card_type, CardType::AskForPermissionsConsent);
    assert_eq!(
        perms.permissions,
        Some(vec![String::from("alexa::profile:mobile_number:read")])
    );
}

#[test]
fn unrecognized_directive_round_trips() {
    let raw = r#"{"payload":{"token":"t","volume":7},"type":"Custom.SetVolume"}"#;
    let v: serde_json::Value = serde_json::from_str(raw).unwrap();
    let d = Directive::Other(v.clone());
    match d {
        Directive::Other(w) => {
            let reserialized = serde_json::to_string(&w).unwrap();
            assert_eq!(reserialized, serde_json::to_string(&v).unwrap());
            assert_eq!(reserialized, raw);
        }
        _ => panic!("directive payload was coerced"),
    }
}
