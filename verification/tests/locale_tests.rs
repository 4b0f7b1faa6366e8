use alexa_sdk::locale::{Language, Locale, Region};

#[test]
fn parse_splits_language_and_region() {
    let l = Locale::parse("en-US");
    assert_eq!(l.language, Language::English);
    assert_eq!(l.region, Some(Region::UnitedStates));
}

#[test]
fn parse_without_region() {
    let l = Locale::parse("de");
    assert_eq!(l.language, Language::German);
    assert_eq!(l.region, None);
    assert_eq!(l.as_str(), "de");
}

#[test]
fn format_parse_round_trip() {
    for s in [
        "en-US", "en-GB", "en-AU", "en-CA", "en-IN", "de-DE", "it-IT", "ja-JP", "es-ES", "es-MX",
        "es-US", "fr-FR", "fr-CA", "pt-BR", "hi-HI", "en", "xx", "xx-ZZ", "", "-", "en-",
        "-US",
    ] {
        assert_eq!(Locale::parse(s).as_str(), s);
    }
}

#[test]
fn three_part_string_keeps_hyphen_in_region() {
    let l = Locale::parse("a-b-c");
    assert_eq!(l.language, Language::Other("a".into()));
    assert_eq!(l.region, Some(Region::Other("b-c".into())));
    assert_eq!(l.as_str(), "a-b-c");
}

#[test]
fn language_predicates() {
    assert!(Locale::parse("en-US").is_english());
    assert!(Locale::parse("fr-CA").is_french());
    assert!(Locale::parse("es-MX").is_spanish());
    assert!(!Locale::parse("xx-ZZ").is_english());
    assert!(!Locale::parse("xx-ZZ").is_french());
    assert!(!Locale::parse("xx-ZZ").is_spanish());
}

#[test]
fn predicates_ignore_region() {
    assert!(Locale::parse("en-QQ").is_english());
    assert!(Locale::parse("en").is_english());
    assert!(!Locale::parse("ja-JP").is_english());
}

#[test]
fn locale_from_typed_parts() {
    let l = Locale { language: Language::Japanese, region: Some(Region::Japan) };
    assert_eq!(l.as_str(), "ja-JP");
    let bare = Locale { language: Language::Other("tlh".into()), region: None };
    assert_eq!(bare.as_str(), "tlh");
}
