//! The outbound response data model and its construction helpers.
//!
//! A response needs nothing beyond the end-of-session flag; speech, card,
//! reprompt, directives and session attributes are all optional and default
//! to absent.  Directives form a tagged union whose unrecognized payloads are
//! preserved verbatim as raw JSON values.

use vstd::prelude::*;
use vstd::string::*;

use crate::codec::{str_eq, OpenEnum};
use crate::kv::{
    attr_entries, attr_set, entry_lookup, entry_set, lemma_lookup_set_other, lemma_lookup_set_same,
    lemma_set_unique, unique_keys,
};

verus! {

/// The raw JSON value type used for unrecognized directive payloads.  Opaque
/// here: the library only carries such values through unchanged.
#[verifier::external_type_specification]
#[verifier::external_body]
pub struct ExValue(serde_json::Value);

/// The top-level outbound value.
pub struct ResponseEnvelope {
    pub version: Version,
    pub session_attributes: Option<Vec<(String, String)>>,
    pub response: Response,
}

/// The response proper: everything optional but the end-of-session flag.
pub struct Response {
    pub output_speech: Option<Speech>,
    pub card: Option<Card>,
    pub reprompt: Option<Reprompt>,
    pub should_end_session: bool,
    pub directives: Option<Vec<Directive>>,
}

/// An instruction to the client device.  Recognized kinds carry typed
/// payloads; anything else is preserved as the raw JSON value it arrived as,
/// never dropped and never coerced into a recognized kind.
pub enum Directive {
    Play(crate::audioplayer::PlayDirective),
    Stop,
    Other(serde_json::Value),
}

/// Speech rendered to the user, either plain text or SSML markup.
#[derive(Debug, Clone)]
pub struct Speech {
    pub speech_type: SpeechType,
    pub text: Option<String>,
    pub ssml: Option<String>,
    pub play_behavior: Option<PlayBehavior>,
}

/// A card shown in the companion app.
#[derive(Debug, Clone)]
pub struct Card {
    pub card_type: CardType,
    pub title: Option<String>,
    pub content: Option<String>,
    pub text: Option<String>,
    pub image: Option<Image>,
    pub permissions: Option<Vec<String>>,
}

/// Speech replayed when the user fails to answer.
#[derive(Debug, Clone)]
pub struct Reprompt {
    pub output_speech: Speech,
}

/// The pair of image URLs a standard card may carry.
#[derive(Debug, Clone)]
pub struct Image {
    pub small_image_url: Option<String>,
    pub large_image_url: Option<String>,
}

/// A plain-text speech payload carrying exactly `text`.
pub open spec fn is_plain_speech(sp: Speech, text: Seq<char>) -> bool {
    &&& sp.speech_type == SpeechType::PlainText
    &&& (sp.text matches Some(t) && t@ == text)
    &&& sp.ssml is None
    &&& sp.play_behavior is None
}

/// An SSML speech payload carrying exactly `markup`.
pub open spec fn is_ssml_speech(sp: Speech, markup: Seq<char>) -> bool {
    &&& sp.speech_type == SpeechType::SSML
    &&& sp.text is None
    &&& (sp.ssml matches Some(m) && m@ == markup)
    &&& sp.play_behavior is None
}

/// A simple card titled `title` with body `text` and nothing else.
pub open spec fn is_simple_card(c: Card, title: Seq<char>, text: Seq<char>) -> bool {
    &&& c.card_type == CardType::Simple
    &&& (c.title matches Some(t) && t@ == title)
    &&& (c.content matches Some(b) && b@ == text)
    &&& c.text is None
    &&& c.image is None
    &&& c.permissions is None
}

impl ResponseEnvelope {
    /// The specification-level contents of the session attribute mapping; an
    /// absent mapping holds nothing.
    pub open spec fn spec_attributes(&self) -> Seq<(Seq<char>, Seq<char>)> {
        match self.session_attributes {
            None => Seq::empty(),
            Some(v) => attr_entries(v@),
        }
    }

    /// Constructs a response with only the required elements: every optional
    /// field is absent.
    pub fn new(should_end: bool) -> (r: ResponseEnvelope)
        ensures
            r.version == Version::V1_0,
            r.session_attributes is None,
            r.response.output_speech is None,
            r.response.card is None,
            r.response.reprompt is None,
            r.response.should_end_session == should_end,
            r.response.directives is None,
    {
        ResponseEnvelope {
            version: Version::V1_0,
            session_attributes: None,
            response: Response {
                output_speech: None,
                card: None,
                reprompt: None,
                should_end_session: should_end,
                directives: None,
            },
        }
    }

    /// Constructs a basic plain response with a simple card.
    pub fn new_simple(title: &str, text: &str) -> (r: ResponseEnvelope)
        ensures
            r.version == Version::V1_0,
            r.session_attributes is None,
            r.response.reprompt is None,
            r.response.directives is None,
            r.response.should_end_session,
            r.response.card matches Some(c) && is_simple_card(c, title@, text@),
            r.response.output_speech matches Some(sp) && is_plain_speech(sp, text@),
    {
        ResponseEnvelope::simple(title, text)
    }

    /// Combines a plain-text speech with a matching simple card, ending the
    /// session.
    pub fn simple(title: &str, text: &str) -> (r: ResponseEnvelope)
        ensures
            r.version == Version::V1_0,
            r.session_attributes is None,
            r.response.reprompt is None,
            r.response.directives is None,
            r.response.should_end_session,
            r.response.card matches Some(c) && is_simple_card(c, title@, text@),
            r.response.output_speech matches Some(sp) && is_plain_speech(sp, text@),
    {
        ResponseEnvelope::new(true).card(Card::simple(title, text)).speech(Speech::plain(text))
    }

    /// Constructs an empty response ending the session.
    pub fn end() -> (r: ResponseEnvelope)
        ensures
            r.version == Version::V1_0,
            r.session_attributes is None,
            r.response.output_speech is None,
            r.response.card is None,
            r.response.reprompt is None,
            r.response.should_end_session,
            r.response.directives is None,
    {
        ResponseEnvelope::new(true)
    }

    /// Adds a speech element to the response.
    pub fn speech(self, speech: Speech) -> (r: ResponseEnvelope)
        ensures
            r.response.output_speech == Some(speech),
            r.version == self.version,
            r.session_attributes == self.session_attributes,
            r.response.card == self.response.card,
            r.response.reprompt == self.response.reprompt,
            r.response.should_end_session == self.response.should_end_session,
            r.response.directives == self.response.directives,
    {
        ResponseEnvelope {
            response: Response { output_speech: Some(speech), ..self.response },
            ..self
        }
    }

    /// Adds a card to the response.
    pub fn card(self, card: Card) -> (r: ResponseEnvelope)
        ensures
            r.response.card == Some(card),
            r.version == self.version,
            r.session_attributes == self.session_attributes,
            r.response.output_speech == self.response.output_speech,
            r.response.reprompt == self.response.reprompt,
            r.response.should_end_session == self.response.should_end_session,
            r.response.directives == self.response.directives,
    {
        ResponseEnvelope { response: Response { card: Some(card), ..self.response }, ..self }
    }

    /// Adds an attribute key/value pair to the response; attributes can be
    /// read back on the next request for basic state persistence.  Setting a
    /// key already present overwrites its value; the mapping is created on
    /// the first write.
    pub fn add_attribute(&mut self, key: &str, val: &str)
        ensures
            final(self).spec_attributes() == entry_set(old(self).spec_attributes(), key@, val@),
            final(self).session_attributes is Some,
            final(self).version == old(self).version,
            final(self).response == old(self).response,
            entry_lookup(final(self).spec_attributes(), key@) == Some(val@),
            forall|other: Seq<char>|
                other != key@ ==> entry_lookup(final(self).spec_attributes(), other)
                    == entry_lookup(old(self).spec_attributes(), other),
            unique_keys(old(self).spec_attributes()) ==> unique_keys(
                final(self).spec_attributes(),
            ),
    {
        proof {
            lemma_lookup_set_same(self.spec_attributes(), key@, val@);
            assert forall|other: Seq<char>| other != key@ implies entry_lookup(
                entry_set(self.spec_attributes(), key@, val@),
                other,
            ) == entry_lookup(self.spec_attributes(), other) by {
                lemma_lookup_set_other(self.spec_attributes(), key@, val@, other);
            }
            if unique_keys(self.spec_attributes()) {
                lemma_set_unique(self.spec_attributes(), key@, val@);
            }
        }
        let mut entries = match self.session_attributes.take() {
            Some(v) => v,
            None => Vec::new(),
        };
        attr_set(&mut entries, key, val);
        self.session_attributes = Some(entries);
    }
}

impl Speech {
    /// Constructs a plain-text output speech.
    pub fn plain(s: &str) -> (r: Speech)
        ensures
            is_plain_speech(r, s@),
    {
        Speech {
            speech_type: SpeechType::PlainText,
            text: Some(s.to_owned()),
            ssml: None,
            play_behavior: None,
        }
    }

    /// Constructs an SSML output speech with the supplied markup.
    pub fn ssml(s: &str) -> (r: Speech)
        ensures
            is_ssml_speech(r, s@),
    {
        Speech {
            speech_type: SpeechType::SSML,
            ssml: Some(s.to_owned()),
            text: None,
            play_behavior: None,
        }
    }

    /// Sets the play behavior of a speech object.
    pub fn play_behavior(&mut self, behavior: PlayBehavior)
        ensures
            final(self).play_behavior == Some(behavior),
            final(self).speech_type == old(self).speech_type,
            final(self).text == old(self).text,
            final(self).ssml == old(self).ssml,
    {
        self.play_behavior = Some(behavior);
    }
}

impl Card {
    /// Constructs a simple card: a title and a plain body.
    pub fn simple(title: &str, text: &str) -> (r: Card)
        ensures
            is_simple_card(r, title@, text@),
    {
        Card {
            card_type: CardType::Simple,
            title: Some(title.to_owned()),
            content: Some(text.to_owned()),
            text: None,
            image: None,
            permissions: None,
        }
    }

    /// Constructs a standard card: a title, a text body and an image.
    pub fn standard(title: &str, text: &str, image: Image) -> (r: Card)
        ensures
            r.card_type == CardType::Standard,
            r.title matches Some(t) && t@ == title@,
            r.content is None,
            r.text matches Some(b) && b@ == text@,
            r.image == Some(image),
            r.permissions is None,
    {
        Card {
            card_type: CardType::Standard,
            title: Some(title.to_owned()),
            content: None,
            text: Some(text.to_owned()),
            image: Some(image),
            permissions: None,
        }
    }

    /// Constructs a link-account card.
    pub fn link_account() -> (r: Card)
        ensures
            r.card_type == CardType::LinkAccount,
            r.title is None,
            r.content is None,
            r.text is None,
            r.image is None,
            r.permissions is None,
    {
        Card {
            card_type: CardType::LinkAccount,
            title: None,
            content: None,
            text: None,
            image: None,
            permissions: None,
        }
    }

    /// Constructs a permissions-consent card with the requested permissions.
    pub fn ask_for_permission(permissions: Vec<String>) -> (r: Card)
        ensures
            r.card_type == CardType::AskForPermissionsConsent,
            r.title is None,
            r.content is None,
            r.text is None,
            r.image is None,
            r.permissions == Some(permissions),
    {
        Card {
            card_type: CardType::AskForPermissionsConsent,
            title: None,
            content: None,
            text: None,
            image: None,
            permissions: Some(permissions),
        }
    }
}

impl Image {
    /// An image with no URL set yet.
    pub fn new() -> (r: Image)
        ensures
            r.small_image_url is None,
            r.large_image_url is None,
    {
        Image { small_image_url: None, large_image_url: None }
    }

    /// Sets the small image URL.
    pub fn small_image_url(self, url: String) -> (r: Image)
        ensures
            r.small_image_url == Some(url),
            r.large_image_url == self.large_image_url,
    {
        Image { small_image_url: Some(url), ..self }
    }

    /// Sets the large image URL.
    pub fn large_image_url(self, url: String) -> (r: Image)
        ensures
            r.large_image_url == Some(url),
            r.small_image_url == self.small_image_url,
    {
        Image { large_image_url: Some(url), ..self }
    }
}

impl Default for Image {
    /// An image with no URL set.
    fn default() -> (r: Image)
        ensures
            r.small_image_url is None,
            r.large_image_url is None,
    {
        Image { small_image_url: None, large_image_url: None }
    }
}

/// The protocol version of an envelope.
#[derive(Debug, Clone, PartialEq)]
pub enum Version {
    V1_0,
    /// Any unrecognized value for this enumeration.
    Other(String),
}

impl OpenEnum for Version {
    open spec fn wire_spec(&self) -> Seq<char> {
        match self {
            Version::V1_0 => "1.0"@,
            Version::Other(s) => s@,
        }
    }

    open spec fn known_of(s: Seq<char>) -> Option<Version> {
        if s == "1.0"@ {
            Some(Version::V1_0)
        } else {
            None
        }
    }

    open spec fn is_unknown(&self) -> bool {
        self matches Version::Other(_)
    }

    fn as_str(&self) -> (r: &str) {
        match self {
            Version::V1_0 => "1.0",
            Version::Other(s) => s.as_str(),
        }
    }

    fn from_wire(s: &str) -> (r: Version) {
        if str_eq(s, "1.0") {
            Version::V1_0
        } else {
            Version::Other(s.to_owned())
        }
    }

    proof fn lemma_known_round_trip(v: Version) {
        reveal_strlit("1.0");
        assert("1.0"@ =~= seq!['1', '.', '0']);
        match v {
            Version::V1_0 => assert(Version::known_of(v.wire_spec()) == Some(v)),
            Version::Other(_) => assert(false),
        }
    }
}

/// How the speech payload is interpreted.
#[derive(Debug, Clone, PartialEq)]
pub enum SpeechType {
    PlainText,
    SSML,
    /// Any unrecognized value for this enumeration.
    Other(String),
}

impl OpenEnum for SpeechType {
    open spec fn wire_spec(&self) -> Seq<char> {
        match self {
            SpeechType::PlainText => "PlainText"@,
            SpeechType::SSML => "SSML"@,
            SpeechType::Other(s) => s@,
        }
    }

    open spec fn known_of(s: Seq<char>) -> Option<SpeechType> {
        if s == "PlainText"@ {
            Some(SpeechType::PlainText)
        } else if s == "SSML"@ {
            Some(SpeechType::SSML)
        } else {
            None
        }
    }

    open spec fn is_unknown(&self) -> bool {
        self matches SpeechType::Other(_)
    }

    fn as_str(&self) -> (r: &str) {
        match self {
            SpeechType::PlainText => "PlainText",
            SpeechType::SSML => "SSML",
            SpeechType::Other(s) => s.as_str(),
        }
    }

    fn from_wire(s: &str) -> (r: SpeechType) {
        if str_eq(s, "PlainText") {
            SpeechType::PlainText
        } else if str_eq(s, "SSML") {
            SpeechType::SSML
        } else {
            SpeechType::Other(s.to_owned())
        }
    }

    proof fn lemma_known_round_trip(v: SpeechType) {
        reveal_strlit("PlainText");
        reveal_strlit("SSML");
        assert("PlainText"@ =~= seq!['P', 'l', 'a', 'i', 'n', 'T', 'e', 'x', 't']);
        assert("SSML"@ =~= seq!['S', 'S', 'M', 'L']);
        match v {
            SpeechType::PlainText => assert(SpeechType::known_of(v.wire_spec()) == Some(v)),
            SpeechType::SSML => assert(SpeechType::known_of(v.wire_spec()) == Some(v)),
            SpeechType::Other(_) => assert(false),
        }
    }
}

/// How a newly delivered speech or audio item interacts with the playback queue;
/// the wire strings are upper snake case.
#[derive(Debug, Clone, PartialEq)]
pub enum PlayBehavior {
    Enqueue,
    ReplaceAll,
    ReplaceEnqueued,
    /// Any unrecognized value for this enumeration.
    Other(String),
}

impl OpenEnum for PlayBehavior {
    open spec fn wire_spec(&self) -> Seq<char> {
        match self {
            PlayBehavior::Enqueue => "ENQUEUE"@,
            PlayBehavior::ReplaceAll => "REPLACE_ALL"@,
            PlayBehavior::ReplaceEnqueued => "REPLACE_ENQUEUED"@,
            PlayBehavior::Other(s) => s@,
        }
    }

    open spec fn known_of(s: Seq<char>) -> Option<PlayBehavior> {
        if s == "ENQUEUE"@ {
            Some(PlayBehavior::Enqueue)
        } else if s == "REPLACE_ALL"@ {
            Some(PlayBehavior::ReplaceAll)
        } else if s == "REPLACE_ENQUEUED"@ {
            Some(PlayBehavior::ReplaceEnqueued)
        } else {
            None
        }
    }

    open spec fn is_unknown(&self) -> bool {
        self matches PlayBehavior::Other(_)
    }

    fn as_str(&self) -> (r: &str) {
        match self {
            PlayBehavior::Enqueue => "ENQUEUE",
            PlayBehavior::ReplaceAll => "REPLACE_ALL",
            PlayBehavior::ReplaceEnqueued => "REPLACE_ENQUEUED",
            PlayBehavior::Other(s) => s.as_str(),
        }
    }

    fn from_wire(s: &str) -> (r: PlayBehavior) {
        if str_eq(s, "ENQUEUE") {
            PlayBehavior::Enqueue
        } else if str_eq(s, "REPLACE_ALL") {
            PlayBehavior::ReplaceAll
        } else if str_eq(s, "REPLACE_ENQUEUED") {
            PlayBehavior::ReplaceEnqueued
        } else {
            PlayBehavior::Other(s.to_owned())
        }
    }

    proof fn lemma_known_round_trip(v: PlayBehavior) {
        reveal_strlit("ENQUEUE");
        reveal_strlit("REPLACE_ALL");
        reveal_strlit("REPLACE_ENQUEUED");
        assert("ENQUEUE"@ =~= seq!['E', 'N', 'Q', 'U', 'E', 'U', 'E']);
        assert("REPLACE_ALL"@ =~= seq!['R', 'E', 'P', 'L', 'A', 'C', 'E', '_', 'A', 'L', 'L']);
        assert("REPLACE_ENQUEUED"@ =~= seq!['R', 'E', 'P', 'L', 'A', 'C', 'E', '_', 'E', 'N', 'Q', 'U', 'E', 'U', 'E', 'D']);
        match v {
            PlayBehavior::Enqueue => assert(PlayBehavior::known_of(v.wire_spec()) == Some(v)),
            PlayBehavior::ReplaceAll => assert(PlayBehavior::known_of(v.wire_spec()) == Some(v)),
            PlayBehavior::ReplaceEnqueued => assert(PlayBehavior::known_of(v.wire_spec()) == Some(v)),
            PlayBehavior::Other(_) => assert(false),
        }
    }
}

/// The kind of a response card; the wire string is the variant name verbatim.
#[derive(Debug, Clone, PartialEq)]
pub enum CardType {
    Simple,
    Standard,
    LinkAccount,
    AskForPermissionsConsent,
    /// Any unrecognized value for this enumeration.
    Other(String),
}

impl OpenEnum for CardType {
    open spec fn wire_spec(&self) -> Seq<char> {
        match self {
            CardType::Simple => "Simple"@,
            CardType::Standard => "Standard"@,
            CardType::LinkAccount => "LinkAccount"@,
            CardType::AskForPermissionsConsent => "AskForPermissionsConsent"@,
            CardType::Other(s) => s@,
        }
    }

    open spec fn known_of(s: Seq<char>) -> Option<CardType> {
        if s == "Simple"@ {
            Some(CardType::Simple)
        } else if s == "Standard"@ {
            Some(CardType::Standard)
        } else if s == "LinkAccount"@ {
            Some(CardType::LinkAccount)
        } else if s == "AskForPermissionsConsent"@ {
            Some(CardType::AskForPermissionsConsent)
        } else {
            None
        }
    }

    open spec fn is_unknown(&self) -> bool {
        self matches CardType::Other(_)
    }

    fn as_str(&self) -> (r: &str) {
        match self {
            CardType::Simple => "Simple",
            CardType::Standard => "Standard",
            CardType::LinkAccount => "LinkAccount",
            CardType::AskForPermissionsConsent => "AskForPermissionsConsent",
            CardType::Other(s) => s.as_str(),
        }
    }

    fn from_wire(s: &str) -> (r: CardType) {
        if str_eq(s, "Simple") {
            CardType::Simple
        } else if str_eq(s, "Standard") {
            CardType::Standard
        } else if str_eq(s, "LinkAccount") {
            CardType::LinkAccount
        } else if str_eq(s, "AskForPermissionsConsent") {
            CardType::AskForPermissionsConsent
        } else {
            CardType::Other(s.to_owned())
        }
    }

    proof fn lemma_known_round_trip(v: CardType) {
        reveal_strlit("Simple");
        reveal_strlit("Standard");
        reveal_strlit("LinkAccount");
        reveal_strlit("AskForPermissionsConsent");
        assert("Simple"@ =~= seq!['S', 'i', 'm', 'p', 'l', 'e']);
        assert("Standard"@ =~= seq!['S', 't', 'a', 'n', 'd', 'a', 'r', 'd']);
        assert("LinkAccount"@ =~= seq!['L', 'i', 'n', 'k', 'A', 'c', 'c', 'o', 'u', 'n', 't']);
        assert("AskForPermissionsConsent"@ =~= seq!['A', 's', 'k', 'F', 'o', 'r', 'P', 'e', 'r', 'm', 'i', 's', 's', 'i', 'o', 'n', 's', 'C', 'o', 'n', 's', 'e', 'n', 't']);
        match v {
            CardType::Simple => assert(CardType::known_of(v.wire_spec()) == Some(v)),
            CardType::Standard => assert(CardType::known_of(v.wire_spec()) == Some(v)),
            CardType::LinkAccount => assert(CardType::known_of(v.wire_spec()) == Some(v)),
            CardType::AskForPermissionsConsent => assert(CardType::known_of(v.wire_spec()) == Some(v)),
            CardType::Other(_) => assert(false),
        }
    }
}



/// A string outside Version's known wire set round-trips through the unknown
/// carrier: decoding yields `Other` holding it, and `Other` encodes it back
/// verbatim.
pub proof fn lemma_version_unknown_round_trip(o: String)
    requires
        Version::known_of(o@) is None,
    ensures
        Version::Other(o).wire_spec() == o@,
        Version::Other(o).is_unknown(),
{
}

/// A string outside SpeechType's known wire set round-trips through the unknown
/// carrier: decoding yields `Other` holding it, and `Other` encodes it back
/// verbatim.
pub proof fn lemma_speech_type_unknown_round_trip(o: String)
    requires
        SpeechType::known_of(o@) is None,
    ensures
        SpeechType::Other(o).wire_spec() == o@,
        SpeechType::Other(o).is_unknown(),
{
}

/// A string outside PlayBehavior's known wire set round-trips through the unknown
/// carrier: decoding yields `Other` holding it, and `Other` encodes it back
/// verbatim.
pub proof fn lemma_play_behavior_unknown_round_trip(o: String)
    requires
        PlayBehavior::known_of(o@) is None,
    ensures
        PlayBehavior::Other(o).wire_spec() == o@,
        PlayBehavior::Other(o).is_unknown(),
{
}

/// A string outside CardType's known wire set round-trips through the unknown
/// carrier: decoding yields `Other` holding it, and `Other` encodes it back
/// verbatim.
pub proof fn lemma_card_type_unknown_round_trip(o: String)
    requires
        CardType::known_of(o@) is None,
    ensures
        CardType::Other(o).wire_spec() == o@,
        CardType::Other(o).is_unknown(),
{
}

} // verus!
