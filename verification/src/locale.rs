//! The locale of a request: a `language[-region]` string decomposed into two
//! independently coded open enumerations.
//!
//! Parsing splits on the first hyphen only: a string with no hyphen is a bare
//! language, and everything after the first hyphen (further hyphens included)
//! is the region segment.  Formatting rejoins the parts with a hyphen, so
//! `parse` followed by `as_str` reproduces the input string exactly.

use vstd::prelude::*;
use vstd::string::*;

use crate::codec::{decodes, str_eq, OpenEnum};

verus! {

/// The language half of a locale, keyed by ISO 639-1 code.
#[derive(Debug, Clone, PartialEq)]
pub enum Language {
    English,
    French,
    Spanish,
    Italian,
    German,
    Japanese,
    Hindi,
    Portuguese,
    /// Any unrecognized language code.
    Other(String),
}

impl OpenEnum for Language {
    open spec fn wire_spec(&self) -> Seq<char> {
        match self {
            Language::English => "en"@,
            Language::French => "fr"@,
            Language::Spanish => "es"@,
            Language::Italian => "it"@,
            Language::German => "de"@,
            Language::Japanese => "ja"@,
            Language::Hindi => "hi"@,
            Language::Portuguese => "pt"@,
            Language::Other(s) => s@,
        }
    }

    open spec fn known_of(s: Seq<char>) -> Option<Language> {
        if s == "en"@ {
            Some(Language::English)
        } else if s == "fr"@ {
            Some(Language::French)
        } else if s == "es"@ {
            Some(Language::Spanish)
        } else if s == "it"@ {
            Some(Language::Italian)
        } else if s == "de"@ {
            Some(Language::German)
        } else if s == "ja"@ {
            Some(Language::Japanese)
        } else if s == "hi"@ {
            Some(Language::Hindi)
        } else if s == "pt"@ {
            Some(Language::Portuguese)
        } else {
            None
        }
    }

    open spec fn is_unknown(&self) -> bool {
        self matches Language::Other(_)
    }

    fn as_str(&self) -> (r: &str) {
        match self {
            Language::English => "en",
            Language::French => "fr",
            Language::Spanish => "es",
            Language::Italian => "it",
            Language::German => "de",
            Language::Japanese => "ja",
            Language::Hindi => "hi",
            Language::Portuguese => "pt",
            Language::Other(s) => s.as_str(),
        }
    }

    fn from_wire(s: &str) -> (r: Language) {
        if str_eq(s, "en") {
            Language::English
        } else if str_eq(s, "fr") {
            Language::French
        } else if str_eq(s, "es") {
            Language::Spanish
        } else if str_eq(s, "it") {
            Language::Italian
        } else if str_eq(s, "de") {
            Language::German
        } else if str_eq(s, "ja") {
            Language::Japanese
        } else if str_eq(s, "hi") {
            Language::Hindi
        } else if str_eq(s, "pt") {
            Language::Portuguese
        } else {
            Language::Other(s.to_owned())
        }
    }

    proof fn lemma_known_round_trip(v: Language) {
        reveal_strlit("en");
        reveal_strlit("fr");
        reveal_strlit("es");
        reveal_strlit("it");
        reveal_strlit("de");
        reveal_strlit("ja");
        reveal_strlit("hi");
        reveal_strlit("pt");
        assert("en"@ =~= seq!['e', 'n']);
        assert("fr"@ =~= seq!['f', 'r']);
        assert("es"@ =~= seq!['e', 's']);
        assert("it"@ =~= seq!['i', 't']);
        assert("de"@ =~= seq!['d', 'e']);
        assert("ja"@ =~= seq!['j', 'a']);
        assert("hi"@ =~= seq!['h', 'i']);
        assert("pt"@ =~= seq!['p', 't']);
        match v {
            Language::English => assert(Language::known_of(v.wire_spec()) == Some(v)),
            Language::French => assert(Language::known_of(v.wire_spec()) == Some(v)),
            Language::Spanish => assert(Language::known_of(v.wire_spec()) == Some(v)),
            Language::Italian => assert(Language::known_of(v.wire_spec()) == Some(v)),
            Language::German => assert(Language::known_of(v.wire_spec()) == Some(v)),
            Language::Japanese => assert(Language::known_of(v.wire_spec()) == Some(v)),
            Language::Hindi => assert(Language::known_of(v.wire_spec()) == Some(v)),
            Language::Portuguese => assert(Language::known_of(v.wire_spec()) == Some(v)),
            Language::Other(_) => assert(false),
        }
    }
}

/// The region half of a locale, keyed by ISO 3166-1 alpha-2 code.
#[derive(Debug, Clone, PartialEq)]
pub enum Region {
    UnitedStates,
    UnitedKingdom,
    Canada,
    Australia,
    India,
    Mexico,
    Spain,
    France,
    Germany,
    Italy,
    Japan,
    Brazil,
    /// Any unrecognized region code.
    Other(String),
}

impl OpenEnum for Region {
    open spec fn wire_spec(&self) -> Seq<char> {
        match self {
            Region::UnitedStates => "US"@,
            Region::UnitedKingdom => "GB"@,
            Region::Canada => "CA"@,
            Region::Australia => "AU"@,
            Region::India => "IN"@,
            Region::Mexico => "MX"@,
            Region::Spain => "ES"@,
            Region::France => "FR"@,
            Region::Germany => "DE"@,
            Region::Italy => "IT"@,
            Region::Japan => "JP"@,
            Region::Brazil => "BR"@,
            Region::Other(s) => s@,
        }
    }

    open spec fn known_of(s: Seq<char>) -> Option<Region> {
        if s == "US"@ {
            Some(Region::UnitedStates)
        } else if s == "GB"@ {
            Some(Region::UnitedKingdom)
        } else if s == "CA"@ {
            Some(Region::Canada)
        } else if s == "AU"@ {
            Some(Region::Australia)
        } else if s == "IN"@ {
            Some(Region::India)
        } else if s == "MX"@ {
            Some(Region::Mexico)
        } else if s == "ES"@ {
            Some(Region::Spain)
        } else if s == "FR"@ {
            Some(Region::France)
        } else if s == "DE"@ {
            Some(Region::Germany)
        } else if s == "IT"@ {
            Some(Region::Italy)
        } else if s == "JP"@ {
            Some(Region::Japan)
        } else if s == "BR"@ {
            Some(Region::Brazil)
        } else {
            None
        }
    }

    open spec fn is_unknown(&self) -> bool {
        self matches Region::Other(_)
    }

    fn as_str(&self) -> (r: &str) {
        match self {
            Region::UnitedStates => "US",
            Region::UnitedKingdom => "GB",
            Region::Canada => "CA",
            Region::Australia => "AU",
            Region::India => "IN",
            Region::Mexico => "MX",
            Region::Spain => "ES",
            Region::France => "FR",
            Region::Germany => "DE",
            Region::Italy => "IT",
            Region::Japan => "JP",
            Region::Brazil => "BR",
            Region::Other(s) => s.as_str(),
        }
    }

    fn from_wire(s: &str) -> (r: Region) {
        if str_eq(s, "US") {
            Region::UnitedStates
        } else if str_eq(s, "GB") {
            Region::UnitedKingdom
        } else if str_eq(s, "CA") {
            Region::Canada
        } else if str_eq(s, "AU") {
            Region::Australia
        } else if str_eq(s, "IN") {
            Region::India
        } else if str_eq(s, "MX") {
            Region::Mexico
        } else if str_eq(s, "ES") {
            Region::Spain
        } else if str_eq(s, "FR") {
            Region::France
        } else if str_eq(s, "DE") {
            Region::Germany
        } else if str_eq(s, "IT") {
            Region::Italy
        } else if str_eq(s, "JP") {
            Region::Japan
        } else if str_eq(s, "BR") {
            Region::Brazil
        } else {
            Region::Other(s.to_owned())
        }
    }

    proof fn lemma_known_round_trip(v: Region) {
        reveal_strlit("US");
        reveal_strlit("GB");
        reveal_strlit("CA");
        reveal_strlit("AU");
        reveal_strlit("IN");
        reveal_strlit("MX");
        reveal_strlit("ES");
        reveal_strlit("FR");
        reveal_strlit("DE");
        reveal_strlit("IT");
        reveal_strlit("JP");
        reveal_strlit("BR");
        assert("US"@ =~= seq!['U', 'S']);
        assert("GB"@ =~= seq!['G', 'B']);
        assert("CA"@ =~= seq!['C', 'A']);
        assert("AU"@ =~= seq!['A', 'U']);
        assert("IN"@ =~= seq!['I', 'N']);
        assert("MX"@ =~= seq!['M', 'X']);
        assert("ES"@ =~= seq!['E', 'S']);
        assert("FR"@ =~= seq!['F', 'R']);
        assert("DE"@ =~= seq!['D', 'E']);
        assert("IT"@ =~= seq!['I', 'T']);
        assert("JP"@ =~= seq!['J', 'P']);
        assert("BR"@ =~= seq!['B', 'R']);
        match v {
            Region::UnitedStates => assert(Region::known_of(v.wire_spec()) == Some(v)),
            Region::UnitedKingdom => assert(Region::known_of(v.wire_spec()) == Some(v)),
            Region::Canada => assert(Region::known_of(v.wire_spec()) == Some(v)),
            Region::Australia => assert(Region::known_of(v.wire_spec()) == Some(v)),
            Region::India => assert(Region::known_of(v.wire_spec()) == Some(v)),
            Region::Mexico => assert(Region::known_of(v.wire_spec()) == Some(v)),
            Region::Spain => assert(Region::known_of(v.wire_spec()) == Some(v)),
            Region::France => assert(Region::known_of(v.wire_spec()) == Some(v)),
            Region::Germany => assert(Region::known_of(v.wire_spec()) == Some(v)),
            Region::Italy => assert(Region::known_of(v.wire_spec()) == Some(v)),
            Region::Japan => assert(Region::known_of(v.wire_spec()) == Some(v)),
            Region::Brazil => assert(Region::known_of(v.wire_spec()) == Some(v)),
            Region::Other(_) => assert(false),
        }
    }
}

/// A request locale: a language and, usually, a region.
#[derive(Debug, Clone, PartialEq)]
pub struct Locale {
    pub language: Language,
    pub region: Option<Region>,
}

/// True when `i` is the index of the first hyphen in `s`.
pub open spec fn is_first_hyphen(s: Seq<char>, i: int) -> bool {
    &&& 0 <= i < s.len()
    &&& s[i] == '-'
    &&& forall|j: int| 0 <= j < i ==> s[j] != '-'
}

/// True when `s` contains no hyphen at all.
pub open spec fn has_no_hyphen(s: Seq<char>) -> bool {
    forall|j: int| 0 <= j < s.len() ==> s[j] != '-'
}

impl Locale {
    /// The wire string this locale formats to: the language's wire string,
    /// then, if a region is present, a hyphen and the region's wire string.
    pub open spec fn format_spec(&self) -> Seq<char> {
        match self.region {
            None => self.language.wire_spec(),
            Some(r) => self.language.wire_spec() + seq!['-'] + r.wire_spec(),
        }
    }

    /// Splits `s` on its first hyphen: the prefix decodes as the language and
    /// the whole remainder as the region.  Total: any string yields a locale,
    /// and formatting the result reproduces `s` exactly.
    pub fn parse(s: &str) -> (r: Locale)
        ensures
            r.format_spec() == s@,
            has_no_hyphen(s@) ==> r.region is None && decodes(s@, r.language),
            forall|i: int|
                is_first_hyphen(s@, i) ==> (r.region matches Some(reg) && decodes(
                    s@.take(i),
                    r.language,
                ) && decodes(s@.skip(i + 1), reg)),
    {
        let len = s.unicode_len();
        match find_hyphen(s) {
            None => {
                let language = Language::from_wire(s);
                Locale { language, region: None }
            },
            Some(h) => {
                let lang_part = s.substring_char(0, h);
                let region_part = s.substring_char(h + 1, len);
                let language = Language::from_wire(lang_part);
                let region = Region::from_wire(region_part);
                proof {
                    reveal_strlit("-");
                    assert(s@.take(h as int) + seq!['-'] + s@.skip(h + 1) =~= s@);
                }
                Locale { language, region: Some(region) }
            },
        }
    }

    /// Formats the locale back to its wire string.
    pub fn as_str(&self) -> (r: String)
        ensures
            r@ == self.format_spec(),
    {
        let mut out = String::from_str(self.language.as_str());
        match &self.region {
            None => {},
            Some(reg) => {
                out.append("-");
                out.append(reg.as_str());
                proof {
                    reveal_strlit("-");
                    assert(out@ =~= self.format_spec());
                }
            },
        }
        out
    }

    /// True exactly when the language component is known to be English,
    /// whatever the region; unknown languages are never English.
    pub fn is_english(&self) -> (r: bool)
        ensures
            r == (self.language == Language::English),
    {
        match self.language {
            Language::English => true,
            _ => false,
        }
    }

    /// True exactly when the language component is known to be French.
    pub fn is_french(&self) -> (r: bool)
        ensures
            r == (self.language == Language::French),
    {
        match self.language {
            Language::French => true,
            _ => false,
        }
    }

    /// True exactly when the language component is known to be Spanish.
    pub fn is_spanish(&self) -> (r: bool)
        ensures
            r == (self.language == Language::Spanish),
    {
        match self.language {
            Language::Spanish => true,
            _ => false,
        }
    }
}

/// Finds the index of the first hyphen in `s`, if any.
fn find_hyphen(s: &str) -> (r: Option<usize>)
    ensures
        match r {
            Some(i) => is_first_hyphen(s@, i as int),
            None => has_no_hyphen(s@),
        },
{
    let len = s.unicode_len();
    let mut i: usize = 0;
    while i < len
        invariant
            i <= len,
            len == s@.len(),
            forall|j: int| 0 <= j < i ==> s@[j] != '-',
        decreases len - i,
    {
        if s.get_char(i) == '-' {
            return Some(i);
        }
        i = i + 1;
    }
    None
}


/// A string outside Language's known wire set round-trips through the unknown
/// carrier: decoding yields `Other` holding it, and `Other` encodes it back
/// verbatim.
pub proof fn lemma_language_unknown_round_trip(o: String)
    requires
        Language::known_of(o@) is None,
    ensures
        Language::Other(o).wire_spec() == o@,
        Language::Other(o).is_unknown(),
{
}

/// A string outside Region's known wire set round-trips through the unknown
/// carrier: decoding yields `Other` holding it, and `Other` encodes it back
/// verbatim.
pub proof fn lemma_region_unknown_round_trip(o: String)
    requires
        Region::known_of(o@) is None,
    ensures
        Region::Other(o).wire_spec() == o@,
        Region::Other(o).is_unknown(),
{
}

} // verus!
