use alexa_sdk::codec::OpenEnum;
use alexa_sdk::locale::Locale;
use alexa_sdk::request::{
    Application, Context, Intent, IntentType, Request, RequestEnvelope, RequestType, Session, Slot,
    System, User,
};

fn session_with_attributes(attributes: Option<Vec<(String, String)>>) -> Session {
    Session {
        new: true,
        session_id: String::from("amzn1.echo-api.session.abc123"),
        attributes,
        application: Application { application_id: String::from("amzn1.ask.skill.myappid") },
        user: User { user_id: String::from("amzn1.ask.account.theuserid"), access_token: None },
    }
}

fn plain_context() -> Context {
    Context {
        system: System {
            api_access_token: Some(String::from("api-access-token")),
            device: None,
            application: Some(Application {
                application_id: String::from("amzn1.ask.skill.myappid"),
            }),
        },
        audio_player: None,
    }
}

fn envelope(locale: &str, intent: Option<Intent>) -> RequestEnvelope {
    RequestEnvelope {
        version: String::from("1.0"),
        session: Some(session_with_attributes(Some(vec![(
            String::from("lastSpeech"),
            String::from("Jupiter has the shortest day of all the planets"),
        )]))),
        request: Request {
            request_type: RequestType::from_wire("IntentRequest"),
            request_id: String::from("amzn1.echo-api.request.b8b49fde"),
            timestamp: String::from("2018-12-03T00:33:58Z"),
            locale: Locale::parse(locale),
            intent,
            reason: None,
            dialog_state: None,
        },
        context: plain_context(),
    }
}

fn hello_intent() -> Intent {
    Intent {
        name: IntentType::from_wire("hello"),
        confirmation_status: Some(String::from("NONE")),
        slots: None,
    }
}

fn slot(name: &str, value: Option<&str>) -> Slot {
    Slot {
        name: String::from(name),
        value: value.map(String::from),
        confirmation_status: Some(String::from("NONE")),
        resolutions: None,
    }
}

fn default_req() -> RequestEnvelope {
    envelope("en-US", Some(hello_intent()))
}

fn req_with_slots() -> RequestEnvelope {
    let mut intent = hello_intent();
    intent.slots = Some(vec![(String::from("name"), slot("name", Some("bob")))]);
    envelope("en-US", Some(intent))
}

/// A playback request as a live device sends it: a built-in intent name
/// outside the known set, and dotted slot names, most without values.
fn with_playback_intent() -> RequestEnvelope {
    let slots = vec![
        (String::from("object.era"), slot("object.era", None)),
        (String::from("object.name"), slot("object.name", Some("in rainbows"))),
        (String::from("object.sort"), slot("object.sort", None)),
        (String::from("object.byArtist.name"), slot("object.byArtist.name", None)),
        (String::from("object.select"), slot("object.select", None)),
        (String::from("object.type"), slot("object.type", None)),
        (String::from("object.genre"), slot("object.genre", None)),
        (String::from("object.owner.name"), slot("object.owner.name", None)),
        (String::from("object.composer.name"), slot("object.composer.name", None)),
        (String::from("object.contentSource"), slot("object.contentSource", None)),
    ];
    let intent = Intent {
        name: IntentType::from_wire("AMAZON.PlaybackAction<object@MusicCreativeWork>"),
        confirmation_status: Some(String::from("NONE")),
        slots: Some(slots),
    };
    envelope("en-US", Some(intent))
}

#[test]
fn request_test_version() {
    let req = default_req();
    assert_eq!(req.version, "1.0");
}

#[test]
fn test_locale() {
    let req = default_req();
    assert_eq!(req.request.locale, Locale::parse("en-US"));
}

#[test]
fn test_is_english() {
    let req = default_req();
    assert!(req.request.locale.is_english());
}

#[test]
fn test_is_spanish() {
    let req = envelope("es-MX", Some(hello_intent()));
    assert!(req.request.locale.is_spanish());
}

#[test]
fn test_is_french() {
    let req = envelope("fr-CA", Some(hello_intent()));
    assert!(req.request.locale.is_french());
}

#[test]
fn test_intent() {
    let req = default_req();
    assert_eq!(req.intent_type(), Some(&IntentType::Other(String::from("hello"))));
}

#[test]
fn test_slot() {
    let req = req_with_slots();
    assert_eq!(req.slot_value("name"), Some(&String::from("bob")));
}

#[test]
fn test_attribute() {
    let req = default_req();
    assert!(req.session.is_some());
    assert!(req.session.unwrap().attributes.is_some());
}

#[test]
fn test_attribute_val() {
    let req = default_req();
    assert_eq!(
        req.attribute_value("lastSpeech"),
        Some(&String::from("Jupiter has the shortest day of all the planets"))
    );
}

#[test]
fn deserialize_playback_intent() {
    let req = with_playback_intent();
    assert_eq!(req.slot_value("object.name"), Some(&String::from("in rainbows")));
}

#[test]
fn missing_lookups_are_empty() {
    let req = default_req();
    assert_eq!(req.slot_value("name"), None);
    assert_eq!(req.attribute_value("nothing"), None);
    let bare = RequestEnvelope { session: None, ..default_req() };
    assert_eq!(bare.attribute_value("lastSpeech"), None);
    assert!(!bare.is_new());
    assert!(default_req().is_new());
}

#[test]
fn slot_without_value_yields_nothing() {
    let req = with_playback_intent();
    assert_eq!(req.slot_value("object.era"), None);
    assert_eq!(req.slot_value("object.unknown"), None);
}

#[test]
fn intent_type_absent_without_intent() {
    let req = envelope("en-US", None);
    assert_eq!(req.intent_type(), None);
    assert_eq!(req.slot_value("name"), None);
}
