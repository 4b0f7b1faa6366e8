//! The inbound request data model: envelope, session, context, intent and
//! slot structures, together with the lookup accessors.
//!
//! Key/value collections (session attributes, intent slots) are association
//! lists; a decoded envelope has unique keys, and the accessors are specified
//! by first-match lookup, which coincides with map lookup under uniqueness.

use vstd::prelude::*;
use vstd::string::*;

use crate::codec::{str_eq, OpenEnum};
use crate::locale::Locale;

verus! {

/// The top-level inbound value.
#[derive(Debug, Clone)]
pub struct RequestEnvelope {
    pub version: String,
    pub session: Option<Session>,
    pub request: Request,
    pub context: Context,
}

/// Cross-turn session state, with a freeform key/value attribute mapping.
#[derive(Debug, Clone)]
pub struct Session {
    pub new: bool,
    pub session_id: String,
    pub attributes: Option<Vec<(String, String)>>,
    pub application: Application,
    pub user: User,
}

/// The skill this request addresses.
#[derive(Debug, Clone)]
pub struct Application {
    pub application_id: String,
}

/// The end user making the request.
#[derive(Debug, Clone)]
pub struct User {
    pub user_id: String,
    pub access_token: Option<String>,
}

/// The device the request originates from.
#[derive(Debug, Clone)]
pub struct Device {
    pub device_id: String,
}

/// The request proper: its kind, identity, locale and optional intent.
#[derive(Debug, Clone)]
pub struct Request {
    pub request_type: RequestType,
    pub request_id: String,
    pub timestamp: String,
    pub locale: Locale,
    pub intent: Option<Intent>,
    pub reason: Option<String>,
    pub dialog_state: Option<String>,
}

/// Execution context delivered alongside every request.
#[derive(Debug, Clone)]
pub struct Context {
    pub system: System,
    pub audio_player: Option<AudioPlayer>,
}

/// The `System` part of the context.
#[derive(Debug, Clone)]
pub struct System {
    pub api_access_token: Option<String>,
    pub device: Option<Device>,
    pub application: Option<Application>,
}

/// The `AudioPlayer` part of the context.
#[derive(Debug, Clone)]
pub struct AudioPlayer {
    pub token: Option<String>,
    pub offset_in_milliseconds: Option<u64>,
    pub player_activity: Option<String>,
}

/// A voice intent: its name and a mapping from slot name to slot.
#[derive(Debug, Clone)]
pub struct Intent {
    pub name: IntentType,
    pub confirmation_status: Option<String>,
    pub slots: Option<Vec<(String, Slot)>>,
}

/// A named, possibly resolved argument captured within an intent.
#[derive(Debug, Clone)]
pub struct Slot {
    pub name: String,
    pub value: Option<String>,
    pub confirmation_status: Option<String>,
    pub resolutions: Option<Resolution>,
}

/// Ranked candidate values per matching authority.
#[derive(Debug, Clone)]
pub struct Resolution {
    pub resolutions_per_authority: Vec<ResolutionsPerAuthority>,
}

/// One authority's resolution of a slot.
#[derive(Debug, Clone)]
pub struct ResolutionsPerAuthority {
    pub authority: String,
    pub status: Status,
    pub values: Vec<ValueWrapper>,
}

/// The outcome code of a resolution.
#[derive(Debug, Clone)]
pub struct Status {
    pub code: String,
}

/// A single resolved candidate.
#[derive(Debug, Clone)]
pub struct ValueWrapper {
    pub value: ResolutionValue,
}

/// A resolved candidate's name and identifier.
#[derive(Debug, Clone)]
pub struct ResolutionValue {
    pub name: String,
    pub id: String,
}

/// First-match lookup of `key` among the slot entries.
pub open spec fn slot_lookup(entries: Seq<(String, Slot)>, key: Seq<char>) -> Option<Slot>
    decreases entries.len(),
{
    if entries.len() == 0 {
        None
    } else if entries[0].0@ == key {
        Some(entries[0].1)
    } else {
        slot_lookup(entries.drop_first(), key)
    }
}

proof fn lemma_slot_lookup_found(entries: Seq<(String, Slot)>, key: Seq<char>, i: int)
    requires
        0 <= i < entries.len(),
        entries[i].0@ == key,
        forall|j: int| 0 <= j < i ==> entries[j].0@ != key,
    ensures
        slot_lookup(entries, key) == Some(entries[i].1),
    decreases i,
{
    if i > 0 {
        lemma_slot_lookup_found(entries.drop_first(), key, i - 1);
    }
}

proof fn lemma_slot_lookup_absent(entries: Seq<(String, Slot)>, key: Seq<char>)
    requires
        forall|j: int| 0 <= j < entries.len() ==> entries[j].0@ != key,
    ensures
        slot_lookup(entries, key) is None,
    decreases entries.len(),
{
    if entries.len() > 0 {
        lemma_slot_lookup_absent(entries.drop_first(), key);
    }
}

impl Intent {
    /// The slot mapped under `name`, if the intent has a slot mapping and the
    /// name is present in it.
    pub open spec fn spec_slot(&self, name: Seq<char>) -> Option<Slot> {
        match self.slots {
            None => None,
            Some(entries) => slot_lookup(entries@, name),
        }
    }

    /// Looks `name` up in the slot mapping; an absent mapping or an absent
    /// name yields nothing, never an error.
    pub fn get_slot<'a>(&'a self, name: &str) -> (r: Option<&'a Slot>)
        ensures
            match r {
                Some(s) => self.spec_slot(name@) == Some(*s),
                None => self.spec_slot(name@) is None,
            },
    {
        match &self.slots {
            None => None,
            Some(entries) => {
                let n = entries.len();
                let mut i: usize = 0;
                while i < n
                    invariant
                        i <= n,
                        n == entries@.len(),
                        self.slots == Some(*entries),
                        forall|j: int| 0 <= j < i ==> entries@[j].0@ != name@,
                    decreases n - i,
                {
                    let pair = &entries[i];
                    if str_eq(pair.0.as_str(), name) {
                        proof {
                            lemma_slot_lookup_found(entries@, name@, i as int);
                        }
                        return Some(&entries[i].1);
                    }
                    i = i + 1;
                }
                proof {
                    lemma_slot_lookup_absent(entries@, name@);
                }
                None
            },
        }
    }
}

impl RequestEnvelope {
    /// The name of the intent this request carries, if it carries one.
    pub fn intent_type<'a>(&'a self) -> (r: Option<&'a IntentType>)
        ensures
            match r {
                Some(t) => self.request.intent matches Some(i) && *t == i.name,
                None => self.request.intent is None,
            },
    {
        match &self.request.intent {
            Some(i) => Some(&i.name),
            None => None,
        }
    }

    /// The resolved string value of the named slot, if the request carries an
    /// intent, the intent maps the name, and that slot has a value.
    pub open spec fn spec_slot_value(&self, name: Seq<char>) -> Option<Seq<char>> {
        match self.request.intent {
            None => None,
            Some(i) => match i.spec_slot(name) {
                None => None,
                Some(slot) => match slot.value {
                    None => None,
                    Some(v) => Some(v@),
                },
            },
        }
    }

    /// Retrieves the string value of the named slot, if it exists.
    pub fn slot_value<'a>(&'a self, slot: &str) -> (r: Option<&'a String>)
        ensures
            match r {
                Some(v) => self.spec_slot_value(slot@) == Some(v@),
                None => self.spec_slot_value(slot@) is None,
            },
    {
        match &self.request.intent {
            None => None,
            Some(i) => match i.get_slot(slot) {
                None => None,
                Some(s) => match &s.value {
                    None => None,
                    Some(v) => Some(v),
                },
            },
        }
    }

    /// The attribute value mapped under `key` in the session, if a session
    /// with attributes is present and the key is among them.
    pub open spec fn spec_attribute_value(&self, key: Seq<char>) -> Option<Seq<char>> {
        match self.session {
            None => None,
            Some(s) => match s.attributes {
                None => None,
                Some(entries) => crate::kv::entry_lookup(crate::kv::attr_entries(entries@), key),
            },
        }
    }

    /// Retrieves the attribute value with the given key, if it exists.
    pub fn attribute_value<'a>(&'a self, key: &str) -> (r: Option<&'a String>)
        ensures
            match r {
                Some(v) => self.spec_attribute_value(key@) == Some(v@),
                None => self.spec_attribute_value(key@) is None,
            },
    {
        match &self.session {
            None => None,
            Some(s) => match &s.attributes {
                None => None,
                Some(entries) => crate::kv::attr_get(entries, key),
            },
        }
    }

    /// True exactly when a session is present and marked new; a request
    /// without a session is not new.
    pub fn is_new(&self) -> (r: bool)
        ensures
            r == match self.session {
                Some(s) => s.new,
                None => false,
            },
    {
        match &self.session {
            Some(s) => s.new,
            None => false,
        }
    }
}

/// The kind of an inbound request; the wire string is the variant name verbatim.
#[derive(Debug, Clone, PartialEq)]
pub enum RequestType {
    LaunchRequest,
    IntentRequest,
    SessionEndedRequest,
    CanFulfillIntentRequest,
    /// Any unrecognized value for this enumeration.
    Other(String),
}

impl OpenEnum for RequestType {
    open spec fn wire_spec(&self) -> Seq<char> {
        match self {
            RequestType::LaunchRequest => "LaunchRequest"@,
            RequestType::IntentRequest => "IntentRequest"@,
            RequestType::SessionEndedRequest => "SessionEndedRequest"@,
            RequestType::CanFulfillIntentRequest => "CanFulfillIntentRequest"@,
            RequestType::Other(s) => s@,
        }
    }

    open spec fn known_of(s: Seq<char>) -> Option<RequestType> {
        if s == "LaunchRequest"@ {
            Some(RequestType::LaunchRequest)
        } else if s == "IntentRequest"@ {
            Some(RequestType::IntentRequest)
        } else if s == "SessionEndedRequest"@ {
            Some(RequestType::SessionEndedRequest)
        } else if s == "CanFulfillIntentRequest"@ {
            Some(RequestType::CanFulfillIntentRequest)
        } else {
            None
        }
    }

    open spec fn is_unknown(&self) -> bool {
        self matches RequestType::Other(_)
    }

    fn as_str(&self) -> (r: &str) {
        match self {
            RequestType::LaunchRequest => "LaunchRequest",
            RequestType::IntentRequest => "IntentRequest",
            RequestType::SessionEndedRequest => "SessionEndedRequest",
            RequestType::CanFulfillIntentRequest => "CanFulfillIntentRequest",
            RequestType::Other(s) => s.as_str(),
        }
    }

    fn from_wire(s: &str) -> (r: RequestType) {
        if str_eq(s, "LaunchRequest") {
            RequestType::LaunchRequest
        } else if str_eq(s, "IntentRequest") {
            RequestType::IntentRequest
        } else if str_eq(s, "SessionEndedRequest") {
            RequestType::SessionEndedRequest
        } else if str_eq(s, "CanFulfillIntentRequest") {
            RequestType::CanFulfillIntentRequest
        } else {
            RequestType::Other(s.to_owned())
        }
    }

    proof fn lemma_known_round_trip(v: RequestType) {
        reveal_strlit("LaunchRequest");
        reveal_strlit("IntentRequest");
        reveal_strlit("SessionEndedRequest");
        reveal_strlit("CanFulfillIntentRequest");
        assert("LaunchRequest"@ =~= seq!['L', 'a', 'u', 'n', 'c', 'h', 'R', 'e', 'q', 'u', 'e', 's', 't']);
        assert("IntentRequest"@ =~= seq!['I', 'n', 't', 'e', 'n', 't', 'R', 'e', 'q', 'u', 'e', 's', 't']);
        assert("SessionEndedRequest"@ =~= seq!['S', 'e', 's', 's', 'i', 'o', 'n', 'E', 'n', 'd', 'e', 'd', 'R', 'e', 'q', 'u', 'e', 's', 't']);
        assert("CanFulfillIntentRequest"@ =~= seq!['C', 'a', 'n', 'F', 'u', 'l', 'f', 'i', 'l', 'l', 'I', 'n', 't', 'e', 'n', 't', 'R', 'e', 'q', 'u', 'e', 's', 't']);
        match v {
            RequestType::LaunchRequest => assert(RequestType::known_of(v.wire_spec()) == Some(v)),
            RequestType::IntentRequest => assert(RequestType::known_of(v.wire_spec()) == Some(v)),
            RequestType::SessionEndedRequest => assert(RequestType::known_of(v.wire_spec()) == Some(v)),
            RequestType::CanFulfillIntentRequest => assert(RequestType::known_of(v.wire_spec()) == Some(v)),
            RequestType::Other(_) => assert(false),
        }
    }
}

/// The name of a voice intent.  Built-in intents use a fixed `AMAZON.<Name>Intent`
/// wire string; any caller-defined name is passed through unchanged.
#[derive(Debug, Clone, PartialEq)]
pub enum IntentType {
    Help,
    Cancel,
    Fallback,
    LoopOff,
    LoopOn,
    NavigateHome,
    Next,
    No,
    Pause,
    Previous,
    Repeat,
    Resume,
    Select,
    ShuffleOff,
    ShuffleOn,
    StartOver,
    Stop,
    Yes,
    /// Any unrecognized value for this enumeration.
    Other(String),
}

impl OpenEnum for IntentType {
    open spec fn wire_spec(&self) -> Seq<char> {
        match self {
            IntentType::Help => "AMAZON.HelpIntent"@,
            IntentType::Cancel => "AMAZON.CancelIntent"@,
            IntentType::Fallback => "AMAZON.FallbackIntent"@,
            IntentType::LoopOff => "AMAZON.LoopOffIntent"@,
            IntentType::LoopOn => "AMAZON.LoopOnIntent"@,
            IntentType::NavigateHome => "AMAZON.NavigateHomeIntent"@,
            IntentType::Next => "AMAZON.NextIntent"@,
            IntentType::No => "AMAZON.NoIntent"@,
            IntentType::Pause => "AMAZON.PauseIntent"@,
            IntentType::Previous => "AMAZON.PreviousIntent"@,
            IntentType::Repeat => "AMAZON.RepeatIntent"@,
            IntentType::Resume => "AMAZON.ResumeIntent"@,
            IntentType::Select => "AMAZON.SelectIntent"@,
            IntentType::ShuffleOff => "AMAZON.ShuffleOffIntent"@,
            IntentType::ShuffleOn => "AMAZON.ShuffleOnIntent"@,
            IntentType::StartOver => "AMAZON.StartOverIntent"@,
            IntentType::Stop => "AMAZON.StopIntent"@,
            IntentType::Yes => "AMAZON.YesIntent"@,
            IntentType::Other(s) => s@,
        }
    }

    open spec fn known_of(s: Seq<char>) -> Option<IntentType> {
        if s == "AMAZON.HelpIntent"@ {
            Some(IntentType::Help)
        } else if s == "AMAZON.CancelIntent"@ {
            Some(IntentType::Cancel)
        } else if s == "AMAZON.FallbackIntent"@ {
            Some(IntentType::Fallback)
        } else if s == "AMAZON.LoopOffIntent"@ {
            Some(IntentType::LoopOff)
        } else if s == "AMAZON.LoopOnIntent"@ {
            Some(IntentType::LoopOn)
        } else if s == "AMAZON.NavigateHomeIntent"@ {
            Some(IntentType::NavigateHome)
        } else if s == "AMAZON.NextIntent"@ {
            Some(IntentType::Next)
        } else if s == "AMAZON.NoIntent"@ {
            Some(IntentType::No)
        } else if s == "AMAZON.PauseIntent"@ {
            Some(IntentType::Pause)
        } else if s == "AMAZON.PreviousIntent"@ {
            Some(IntentType::Previous)
        } else if s == "AMAZON.RepeatIntent"@ {
            Some(IntentType::Repeat)
        } else if s == "AMAZON.ResumeIntent"@ {
            Some(IntentType::Resume)
        } else if s == "AMAZON.SelectIntent"@ {
            Some(IntentType::Select)
        } else if s == "AMAZON.ShuffleOffIntent"@ {
            Some(IntentType::ShuffleOff)
        } else if s == "AMAZON.ShuffleOnIntent"@ {
            Some(IntentType::ShuffleOn)
        } else if s == "AMAZON.StartOverIntent"@ {
            Some(IntentType::StartOver)
        } else if s == "AMAZON.StopIntent"@ {
            Some(IntentType::Stop)
        } else if s == "AMAZON.YesIntent"@ {
            Some(IntentType::Yes)
        } else {
            None
        }
    }

    open spec fn is_unknown(&self) -> bool {
        self matches IntentType::Other(_)
    }

    fn as_str(&self) -> (r: &str) {
        match self {
            IntentType::Help => "AMAZON.HelpIntent",
            IntentType::Cancel => "AMAZON.CancelIntent",
            IntentType::Fallback => "AMAZON.FallbackIntent",
            IntentType::LoopOff => "AMAZON.LoopOffIntent",
            IntentType::LoopOn => "AMAZON.LoopOnIntent",
            IntentType::NavigateHome => "AMAZON.NavigateHomeIntent",
            IntentType::Next => "AMAZON.NextIntent",
            IntentType::No => "AMAZON.NoIntent",
            IntentType::Pause => "AMAZON.PauseIntent",
            IntentType::Previous => "AMAZON.PreviousIntent",
            IntentType::Repeat => "AMAZON.RepeatIntent",
            IntentType::Resume => "AMAZON.ResumeIntent",
            IntentType::Select => "AMAZON.SelectIntent",
            IntentType::ShuffleOff => "AMAZON.ShuffleOffIntent",
            IntentType::ShuffleOn => "AMAZON.ShuffleOnIntent",
            IntentType::StartOver => "AMAZON.StartOverIntent",
            IntentType::Stop => "AMAZON.StopIntent",
            IntentType::Yes => "AMAZON.YesIntent",
            IntentType::Other(s) => s.as_str(),
        }
    }

    fn from_wire(s: &str) -> (r: IntentType) {
        if str_eq(s, "AMAZON.HelpIntent") {
            IntentType::Help
        } else if str_eq(s, "AMAZON.CancelIntent") {
            IntentType::Cancel
        } else if str_eq(s, "AMAZON.FallbackIntent") {
            IntentType::Fallback
        } else if str_eq(s, "AMAZON.LoopOffIntent") {
            IntentType::LoopOff
        } else if str_eq(s, "AMAZON.LoopOnIntent") {
            IntentType::LoopOn
        } else if str_eq(s, "AMAZON.NavigateHomeIntent") {
            IntentType::NavigateHome
        } else if str_eq(s, "AMAZON.NextIntent") {
            IntentType::Next
        } else if str_eq(s, "AMAZON.NoIntent") {
            IntentType::No
        } else if str_eq(s, "AMAZON.PauseIntent") {
            IntentType::Pause
        } else if str_eq(s, "AMAZON.PreviousIntent") {
            IntentType::Previous
        } else if str_eq(s, "AMAZON.RepeatIntent") {
            IntentType::Repeat
        } else if str_eq(s, "AMAZON.ResumeIntent") {
            IntentType::Resume
        } else if str_eq(s, "AMAZON.SelectIntent") {
            IntentType::Select
        } else if str_eq(s, "AMAZON.ShuffleOffIntent") {
            IntentType::ShuffleOff
        } else if str_eq(s, "AMAZON.ShuffleOnIntent") {
            IntentType::ShuffleOn
        } else if str_eq(s, "AMAZON.StartOverIntent") {
            IntentType::StartOver
        } else if str_eq(s, "AMAZON.StopIntent") {
            IntentType::Stop
        } else if str_eq(s, "AMAZON.YesIntent") {
            IntentType::Yes
        } else {
            IntentType::Other(s.to_owned())
        }
    }

    proof fn lemma_known_round_trip(v: IntentType) {
        reveal_strlit("AMAZON.HelpIntent");
        reveal_strlit("AMAZON.CancelIntent");
        reveal_strlit("AMAZON.FallbackIntent");
        reveal_strlit("AMAZON.LoopOffIntent");
        reveal_strlit("AMAZON.LoopOnIntent");
        reveal_strlit("AMAZON.NavigateHomeIntent");
        reveal_strlit("AMAZON.NextIntent");
        reveal_strlit("AMAZON.NoIntent");
        reveal_strlit("AMAZON.PauseIntent");
        reveal_strlit("AMAZON.PreviousIntent");
        reveal_strlit("AMAZON.RepeatIntent");
        reveal_strlit("AMAZON.ResumeIntent");
        reveal_strlit("AMAZON.SelectIntent");
        reveal_strlit("AMAZON.ShuffleOffIntent");
        reveal_strlit("AMAZON.ShuffleOnIntent");
        reveal_strlit("AMAZON.StartOverIntent");
        reveal_strlit("AMAZON.StopIntent");
        reveal_strlit("AMAZON.YesIntent");
        assert("AMAZON.HelpIntent"@ =~= seq!['A', 'M', 'A', 'Z', 'O', 'N', '.', 'H', 'e', 'l', 'p', 'I', 'n', 't', 'e', 'n', 't']);
        assert("AMAZON.CancelIntent"@ =~= seq!['A', 'M', 'A', 'Z', 'O', 'N', '.', 'C', 'a', 'n', 'c', 'e', 'l', 'I', 'n', 't', 'e', 'n', 't']);
        assert("AMAZON.FallbackIntent"@ =~= seq!['A', 'M', 'A', 'Z', 'O', 'N', '.', 'F', 'a', 'l', 'l', 'b', 'a', 'c', 'k', 'I', 'n', 't', 'e', 'n', 't']);
        assert("AMAZON.LoopOffIntent"@ =~= seq!['A', 'M', 'A', 'Z', 'O', 'N', '.', 'L', 'o', 'o', 'p', 'O', 'f', 'f', 'I', 'n', 't', 'e', 'n', 't']);
        assert("AMAZON.LoopOnIntent"@ =~= seq!['A', 'M', 'A', 'Z', 'O', 'N', '.', 'L', 'o', 'o', 'p', 'O', 'n', 'I', 'n', 't', 'e', 'n', 't']);
        assert("AMAZON.NavigateHomeIntent"@ =~= seq!['A', 'M', 'A', 'Z', 'O', 'N', '.', 'N', 'a', 'v', 'i', 'g', 'a', 't', 'e', 'H', 'o', 'm', 'e', 'I', 'n', 't', 'e', 'n', 't']);
        assert("AMAZON.NextIntent"@ =~= seq!['A', 'M', 'A', 'Z', 'O', 'N', '.', 'N', 'e', 'x', 't', 'I', 'n', 't', 'e', 'n', 't']);
        assert("AMAZON.NoIntent"@ =~= seq!['A', 'M', 'A', 'Z', 'O', 'N', '.', 'N', 'o', 'I', 'n', 't', 'e', 'n', 't']);
        assert("AMAZON.PauseIntent"@ =~= seq!['A', 'M', 'A', 'Z', 'O', 'N', '.', 'P', 'a', 'u', 's', 'e', 'I', 'n', 't', 'e', 'n', 't']);
        assert("AMAZON.PreviousIntent"@ =~= seq!['A', 'M', 'A', 'Z', 'O', 'N', '.', 'P', 'r', 'e', 'v', 'i', 'o', 'u', 's', 'I', 'n', 't', 'e', 'n', 't']);
        assert("AMAZON.RepeatIntent"@ =~= seq!['A', 'M', 'A', 'Z', 'O', 'N', '.', 'R', 'e', 'p', 'e', 'a', 't', 'I', 'n', 't', 'e', 'n', 't']);
        assert("AMAZON.ResumeIntent"@ =~= seq!['A', 'M', 'A', 'Z', 'O', 'N', '.', 'R', 'e', 's', 'u', 'm', 'e', 'I', 'n', 't', 'e', 'n', 't']);
        assert("AMAZON.SelectIntent"@ =~= seq!['A', 'M', 'A', 'Z', 'O', 'N', '.', 'S', 'e', 'l', 'e', 'c', 't', 'I', 'n', 't', 'e', 'n', 't']);
        assert("AMAZON.ShuffleOffIntent"@ =~= seq!['A', 'M', 'A', 'Z', 'O', 'N', '.', 'S', 'h', 'u', 'f', 'f', 'l', 'e', 'O', 'f', 'f', 'I', 'n', 't', 'e', 'n', 't']);
        assert("AMAZON.ShuffleOnIntent"@ =~= seq!['A', 'M', 'A', 'Z', 'O', 'N', '.', 'S', 'h', 'u', 'f', 'f', 'l', 'e', 'O', 'n', 'I', 'n', 't', 'e', 'n', 't']);
        assert("AMAZON.StartOverIntent"@ =~= seq!['A', 'M', 'A', 'Z', 'O', 'N', '.', 'S', 't', 'a', 'r', 't', 'O', 'v', 'e', 'r', 'I', 'n', 't', 'e', 'n', 't']);
        assert("AMAZON.StopIntent"@ =~= seq!['A', 'M', 'A', 'Z', 'O', 'N', '.', 'S', 't', 'o', 'p', 'I', 'n', 't', 'e', 'n', 't']);
        assert("AMAZON.YesIntent"@ =~= seq!['A', 'M', 'A', 'Z', 'O', 'N', '.', 'Y', 'e', 's', 'I', 'n', 't', 'e', 'n', 't']);
        match v {
            IntentType::Help => assert(IntentType::known_of(v.wire_spec()) == Some(v)),
            IntentType::Cancel => assert(IntentType::known_of(v.wire_spec()) == Some(v)),
            IntentType::Fallback => assert(IntentType::known_of(v.wire_spec()) == Some(v)),
            IntentType::LoopOff => assert(IntentType::known_of(v.wire_spec()) == Some(v)),
            IntentType::LoopOn => assert(IntentType::known_of(v.wire_spec()) == Some(v)),
            IntentType::NavigateHome => assert(IntentType::known_of(v.wire_spec()) == Some(v)),
            IntentType::Next => assert(IntentType::known_of(v.wire_spec()) == Some(v)),
            IntentType::No => assert(IntentType::known_of(v.wire_spec()) == Some(v)),
            IntentType::Pause => assert(IntentType::known_of(v.wire_spec()) == Some(v)),
            IntentType::Previous => assert(IntentType::known_of(v.wire_spec()) == Some(v)),
            IntentType::Repeat => assert(IntentType::known_of(v.wire_spec()) == Some(v)),
            IntentType::Resume => assert(IntentType::known_of(v.wire_spec()) == Some(v)),
            IntentType::Select => assert(IntentType::known_of(v.wire_spec()) == Some(v)),
            IntentType::ShuffleOff => assert(IntentType::known_of(v.wire_spec()) == Some(v)),
            IntentType::ShuffleOn => assert(IntentType::known_of(v.wire_spec()) == Some(v)),
            IntentType::StartOver => assert(IntentType::known_of(v.wire_spec()) == Some(v)),
            IntentType::Stop => assert(IntentType::known_of(v.wire_spec()) == Some(v)),
            IntentType::Yes => assert(IntentType::known_of(v.wire_spec()) == Some(v)),
            IntentType::Other(_) => assert(false),
        }
    }
}



/// A string outside RequestType's known wire set round-trips through the unknown
/// carrier: decoding yields `Other` holding it, and `Other` encodes it back
/// verbatim.
pub proof fn lemma_request_type_unknown_round_trip(o: String)
    requires
        RequestType::known_of(o@) is None,
    ensures
        RequestType::Other(o).wire_spec() == o@,
        RequestType::Other(o).is_unknown(),
{
}

/// A string outside IntentType's known wire set round-trips through the unknown
/// carrier: decoding yields `Other` holding it, and `Other` encodes it back
/// verbatim.
pub proof fn lemma_intent_type_unknown_round_trip(o: String)
    requires
        IntentType::known_of(o@) is None,
    ensures
        IntentType::Other(o).wire_spec() == o@,
        IntentType::Other(o).is_unknown(),
{
}

} // verus!
