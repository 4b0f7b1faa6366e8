use alexa_sdk::codec::OpenEnum;
use alexa_sdk::display::ImageSize;
use alexa_sdk::locale::{Language, Region};
use alexa_sdk::request::{IntentType, RequestType};
use alexa_sdk::response::{CardType, PlayBehavior, SpeechType, Version};

#[test]
fn enum_serde_known() {
    assert_eq!("LinkAccount", CardType::LinkAccount.as_str());
    assert_eq!(CardType::LinkAccount, CardType::from_wire("LinkAccount"));
}

#[test]
fn enum_serde_unknown() {
    assert_eq!("FooBar", CardType::Other("FooBar".into()).as_str());
    assert_eq!(CardType::Other("FooBar".into()), CardType::from_wire("FooBar"));
}

#[test]
fn enum_serde_renames() {
    assert_eq!("REPLACE_ALL", PlayBehavior::ReplaceAll.as_str());
    assert_eq!(PlayBehavior::ReplaceAll, PlayBehavior::from_wire("REPLACE_ALL"));

    assert_eq!("FOO_BAR", PlayBehavior::Other("FOO_BAR".into()).as_str());
    assert_eq!(PlayBehavior::Other("FOO_BAR".into()), PlayBehavior::from_wire("FOO_BAR"));
}

#[test]
fn known_symbols_round_trip() {
    let request_types = [
        RequestType::LaunchRequest,
        RequestType::IntentRequest,
        RequestType::SessionEndedRequest,
        RequestType::CanFulfillIntentRequest,
    ];
    for t in request_types {
        assert_eq!(t, RequestType::from_wire(t.as_str()));
    }
    let intents = [
        IntentType::Help,
        IntentType::Cancel,
        IntentType::Fallback,
        IntentType::LoopOff,
        IntentType::LoopOn,
        IntentType::NavigateHome,
        IntentType::Next,
        IntentType::No,
        IntentType::Pause,
        IntentType::Previous,
        IntentType::Repeat,
        IntentType::Resume,
        IntentType::Select,
        IntentType::ShuffleOff,
        IntentType::ShuffleOn,
        IntentType::StartOver,
        IntentType::Stop,
        IntentType::Yes,
    ];
    for t in intents {
        assert_eq!(t, IntentType::from_wire(t.as_str()));
    }
    let languages = [
        Language::English,
        Language::French,
        Language::Spanish,
        Language::Italian,
        Language::German,
        Language::Japanese,
        Language::Hindi,
        Language::Portuguese,
    ];
    for t in languages {
        assert_eq!(t, Language::from_wire(t.as_str()));
    }
    let regions = [
        Region::UnitedStates,
        Region::UnitedKingdom,
        Region::Canada,
        Region::Australia,
        Region::India,
        Region::Mexico,
        Region::Spain,
        Region::France,
        Region::Germany,
        Region::Italy,
        Region::Japan,
        Region::Brazil,
    ];
    for t in regions {
        assert_eq!(t, Region::from_wire(t.as_str()));
    }
    let speech_types = [SpeechType::PlainText, SpeechType::SSML];
    for t in speech_types {
        assert_eq!(t, SpeechType::from_wire(t.as_str()));
    }
    let behaviors = [PlayBehavior::Enqueue, PlayBehavior::ReplaceAll, PlayBehavior::ReplaceEnqueued];
    for t in behaviors {
        assert_eq!(t, PlayBehavior::from_wire(t.as_str()));
    }
    let card_types = [
        CardType::Simple,
        CardType::Standard,
        CardType::LinkAccount,
        CardType::AskForPermissionsConsent,
    ];
    for t in card_types {
        assert_eq!(t, CardType::from_wire(t.as_str()));
    }
    let sizes = [
        ImageSize::XSmall,
        ImageSize::Small,
        ImageSize::Medium,
        ImageSize::Large,
        ImageSize::XLarge,
    ];
    for t in sizes {
        assert_eq!(t, ImageSize::from_wire(t.as_str()));
    }
    assert_eq!(Version::V1_0, Version::from_wire(Version::V1_0.as_str()));
}

#[test]
fn unknown_strings_round_trip() {
    assert_eq!(IntentType::Other("hello".into()), IntentType::from_wire("hello"));
    assert_eq!("hello", IntentType::from_wire("hello").as_str());
    assert_eq!(RequestType::Other("".into()), RequestType::from_wire(""));
    assert_eq!("", RequestType::from_wire("").as_str());
    assert_eq!(
        IntentType::Other("AMAZON.PlaybackAction<object@MusicCreativeWork>".into()),
        IntentType::from_wire("AMAZON.PlaybackAction<object@MusicCreativeWork>")
    );
    assert_eq!(Language::Other("xx".into()), Language::from_wire("xx"));
    assert_eq!(Region::Other("ZZ".into()), Region::from_wire("ZZ"));
    // Case matters on the wire: these do not match the known wire strings.
    assert_eq!(Language::Other("EN".into()), Language::from_wire("EN"));
    assert_eq!(PlayBehavior::Other("replace_all".into()), PlayBehavior::from_wire("replace_all"));
}

#[test]
fn version_wire_strings() {
    assert_eq!("1.0", Version::V1_0.as_str());
    assert_eq!(Version::V1_0, Version::from_wire("1.0"));
    assert_eq!(Version::Other("2.0".into()), Version::from_wire("2.0"));
}

#[test]
fn image_size_wire_strings() {
    assert_eq!("X_SMALL", ImageSize::XSmall.as_str());
    assert_eq!("X_LARGE", ImageSize::XLarge.as_str());
    assert_eq!(ImageSize::Medium, ImageSize::from_wire("MEDIUM"));
    assert_eq!(ImageSize::Other("HUGE".into()), ImageSize::from_wire("HUGE"));
}

#[test]
fn intent_wire_strings() {
    assert_eq!("AMAZON.HelpIntent", IntentType::Help.as_str());
    assert_eq!("AMAZON.ShuffleOffIntent", IntentType::ShuffleOff.as_str());
    assert_eq!(IntentType::StartOver, IntentType::from_wire("AMAZON.StartOverIntent"));
}
