//! The open-enumeration codec: a closed set of known symbols, each with one
//! fixed wire string, plus an unknown carrier preserving any other string.
//!
//! Decoding is total: a string matching a known wire string yields that
//! symbol, anything else yields the unknown carrier holding the string
//! verbatim.  Encoding is total as well: known symbols emit their fixed wire
//! string, unknown carriers emit their held string unchanged.

use vstd::prelude::*;

verus! {

/// Compares two string slices character by character.
pub fn str_eq(a: &str, b: &str) -> (r: bool)
    ensures
        r == (a@ == b@),
{
    let a_len = a.unicode_len();
    let b_len = b.unicode_len();
    if a_len != b_len {
        return false;
    }
    let mut i: usize = 0;
    while i < a_len
        invariant
            i <= a_len,
            a_len == a@.len(),
            a_len == b@.len(),
            forall|j: int| 0 <= j < i ==> a@[j] == b@[j],
        decreases a_len - i,
    {
        if a.get_char(i) != b.get_char(i) {
            return false;
        }
        i = i + 1;
    }
    proof {
        assert(a@ =~= b@);
    }
    true
}

/// An enumeration whose wire form is a single string: each known symbol has
/// one fixed wire string, and every other string is carried by an unknown
/// variant without loss.
pub trait OpenEnum: Sized {
    /// The wire string this value encodes to.
    spec fn wire_spec(&self) -> Seq<char>;

    /// The known symbol whose wire string is `s`, if any.
    spec fn known_of(s: Seq<char>) -> Option<Self>;

    /// True for the unknown carrier, false for every known symbol.
    spec fn is_unknown(&self) -> bool;

    /// Encodes this value to its wire string.
    fn as_str(&self) -> (r: &str)
        ensures
            r@ == self.wire_spec(),
    ;

    /// Decodes a wire string; never fails.  The result encodes back to `s`
    /// exactly; it is the matching known symbol where one exists, else the
    /// unknown carrier.
    fn from_wire(s: &str) -> (r: Self)
        ensures
            r.wire_spec() == s@,
            Self::known_of(s@) matches Some(k) ==> r == k,
            Self::known_of(s@) is None ==> r.is_unknown(),
    ;

    /// Every known symbol decodes back from its own wire string: within one
    /// enumeration, no two known symbols share a wire string.
    proof fn lemma_known_round_trip(v: Self)
        requires
            !v.is_unknown(),
        ensures
            Self::known_of(v.wire_spec()) == Some(v),
    ;
}

/// What a successful decode of `s` returns: the matching known symbol where
/// one exists, else the unknown carrier holding `s` verbatim.
pub open spec fn decodes<E: OpenEnum>(s: Seq<char>, r: E) -> bool {
    &&& r.wire_spec() == s
    &&& (E::known_of(s) matches Some(k) ==> r == k)
    &&& (E::known_of(s) is None ==> r.is_unknown())
}

/// Within one enumeration the known wire strings are pairwise distinct: two
/// known symbols with the same wire string are the same symbol.
pub proof fn lemma_wire_injective<E: OpenEnum>(a: E, b: E)
    requires
        !a.is_unknown(),
        !b.is_unknown(),
        a.wire_spec() == b.wire_spec(),
    ensures
        a == b,
{
    E::lemma_known_round_trip(a);
    E::lemma_known_round_trip(b);
}

} // verus!
