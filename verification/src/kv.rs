//! Association-list model of the string-to-string attribute mappings carried
//! by sessions and responses.
//!
//! The executable side stores `Vec<(String, String)>`; the specification side
//! works on sequences of character-sequence pairs.  Lookup is first-match,
//! and insertion overwrites the first entry with the same key or appends a
//! new one, so a mapping built only by insertion has unique keys.

use vstd::prelude::*;
use vstd::string::*;

use crate::codec::str_eq;

verus! {

/// The specification-level contents of an attribute list.
pub open spec fn attr_entries(m: Seq<(String, String)>) -> Seq<(Seq<char>, Seq<char>)> {
    m.map_values(|p: (String, String)| (p.0@, p.1@))
}

/// First-match lookup of `key`.
pub open spec fn entry_lookup(m: Seq<(Seq<char>, Seq<char>)>, key: Seq<char>) -> Option<
    Seq<char>,
>
    decreases m.len(),
{
    if m.len() == 0 {
        None
    } else if m[0].0 == key {
        Some(m[0].1)
    } else {
        entry_lookup(m.drop_first(), key)
    }
}

/// Overwrites the first entry keyed `key`, or appends one.
pub open spec fn entry_set(
    m: Seq<(Seq<char>, Seq<char>)>,
    key: Seq<char>,
    val: Seq<char>,
) -> Seq<(Seq<char>, Seq<char>)>
    decreases m.len(),
{
    if m.len() == 0 {
        seq![(key, val)]
    } else if m[0].0 == key {
        seq![(key, val)] + m.drop_first()
    } else {
        seq![m[0]] + entry_set(m.drop_first(), key, val)
    }
}

/// No two entries share a key.
pub open spec fn unique_keys(m: Seq<(Seq<char>, Seq<char>)>) -> bool {
    forall|i: int, j: int| 0 <= i < j < m.len() ==> m[i].0 != m[j].0
}

/// After an insertion, the inserted key maps to the inserted value.
pub proof fn lemma_lookup_set_same(m: Seq<(Seq<char>, Seq<char>)>, key: Seq<char>, val: Seq<char>)
    ensures
        entry_lookup(entry_set(m, key, val), key) == Some(val),
    decreases m.len(),
{
    if m.len() > 0 && m[0].0 != key {
        lemma_lookup_set_same(m.drop_first(), key, val);
        assert((seq![m[0]] + entry_set(m.drop_first(), key, val)).drop_first() =~= entry_set(
            m.drop_first(),
            key,
            val,
        ));
    }
}

/// An insertion leaves every other key's mapping unchanged.
pub proof fn lemma_lookup_set_other(
    m: Seq<(Seq<char>, Seq<char>)>,
    key: Seq<char>,
    val: Seq<char>,
    other: Seq<char>,
)
    requires
        other != key,
    ensures
        entry_lookup(entry_set(m, key, val), other) == entry_lookup(m, other),
    decreases m.len(),
{
    reveal_with_fuel(entry_lookup, 3);
    if m.len() == 0 {
        assert(seq![(key, val)].drop_first() =~= Seq::<(Seq<char>, Seq<char>)>::empty());
    } else if m[0].0 == key {
        assert((seq![(key, val)] + m.drop_first()).drop_first() =~= m.drop_first());
    } else {
        lemma_lookup_set_other(m.drop_first(), key, val, other);
        assert((seq![m[0]] + entry_set(m.drop_first(), key, val)).drop_first() =~= entry_set(
            m.drop_first(),
            key,
            val,
        ));
    }
}

/// Setting the same key twice keeps only the last value: the intermediate
/// insertion leaves no second entry behind.
pub proof fn lemma_set_overwrite(
    m: Seq<(Seq<char>, Seq<char>)>,
    key: Seq<char>,
    val1: Seq<char>,
    val2: Seq<char>,
)
    ensures
        entry_set(entry_set(m, key, val1), key, val2) == entry_set(m, key, val2),
    decreases m.len(),
{
    if m.len() == 0 {
        assert(entry_set(entry_set(m, key, val1), key, val2) =~= entry_set(m, key, val2));
    } else if m[0].0 == key {
        assert(entry_set(entry_set(m, key, val1), key, val2) =~= entry_set(m, key, val2));
    } else {
        lemma_set_overwrite(m.drop_first(), key, val1, val2);
        assert((seq![m[0]] + entry_set(m.drop_first(), key, val1)).drop_first() =~= entry_set(
            m.drop_first(),
            key,
            val1,
        ));
        assert(entry_set(entry_set(m, key, val1), key, val2) =~= entry_set(m, key, val2));
    }
}

/// Insertion preserves key uniqueness.
pub proof fn lemma_set_unique(m: Seq<(Seq<char>, Seq<char>)>, key: Seq<char>, val: Seq<char>)
    requires
        unique_keys(m),
    ensures
        unique_keys(entry_set(m, key, val)),
    decreases m.len(),
{
    if m.len() == 0 {
    } else if m[0].0 == key {
        assert forall|i: int, j: int|
            0 <= i < j < entry_set(m, key, val).len() implies entry_set(m, key, val)[i].0
            != entry_set(m, key, val)[j].0 by {
            assert(entry_set(m, key, val) =~= seq![(key, val)] + m.drop_first());
        }
    } else {
        assert(unique_keys(m.drop_first()));
        lemma_set_unique(m.drop_first(), key, val);
        lemma_set_keys(m.drop_first(), key, val);
        assert forall|i: int, j: int|
            0 <= i < j < entry_set(m, key, val).len() implies entry_set(m, key, val)[i].0
            != entry_set(m, key, val)[j].0 by {
            let s = entry_set(m.drop_first(), key, val);
            assert(entry_set(m, key, val) =~= seq![m[0]] + s);
            if i == 0 {
                assert(entry_set(m, key, val)[j].0 == s[j - 1].0);
            }
        }
    }
}

/// Every key of the result is a key of `m` or the inserted key.
proof fn lemma_set_keys(m: Seq<(Seq<char>, Seq<char>)>, key: Seq<char>, val: Seq<char>)
    ensures
        forall|i: int|
            0 <= i < entry_set(m, key, val).len() ==> entry_set(m, key, val)[i].0 == key
                || exists|j: int| 0 <= j < m.len() && m[j].0 == #[trigger] entry_set(
                m,
                key,
                val,
            )[i].0,
    decreases m.len(),
{
    if m.len() == 0 {
    } else if m[0].0 == key {
        assert forall|i: int| 0 <= i < entry_set(m, key, val).len() implies entry_set(
            m,
            key,
            val,
        )[i].0 == key || exists|j: int|
            0 <= j < m.len() && m[j].0 == entry_set(m, key, val)[i].0 by {
            if i > 0 {
                assert(entry_set(m, key, val)[i] == m.drop_first()[i - 1]);
                assert(m[i].0 == entry_set(m, key, val)[i].0);
            }
        }
    } else {
        lemma_set_keys(m.drop_first(), key, val);
        assert forall|i: int| 0 <= i < entry_set(m, key, val).len() implies entry_set(
            m,
            key,
            val,
        )[i].0 == key || exists|j: int|
            0 <= j < m.len() && m[j].0 == entry_set(m, key, val)[i].0 by {
            let s = entry_set(m.drop_first(), key, val);
            assert(entry_set(m, key, val) =~= seq![m[0]] + s);
            if i == 0 {
                assert(m[0].0 == entry_set(m, key, val)[0].0);
            } else {
                assert(entry_set(m, key, val)[i].0 == s[i - 1].0);
                if s[i - 1].0 != key {
                    let j = choose|j: int|
                        0 <= j < m.drop_first().len() && m.drop_first()[j].0 == s[i - 1].0;
                    assert(m[j + 1].0 == entry_set(m, key, val)[i].0);
                }
            }
        }
    }
}

proof fn lemma_entry_lookup_found(m: Seq<(Seq<char>, Seq<char>)>, key: Seq<char>, i: int)
    requires
        0 <= i < m.len(),
        m[i].0 == key,
        forall|j: int| 0 <= j < i ==> m[j].0 != key,
    ensures
        entry_lookup(m, key) == Some(m[i].1),
    decreases i,
{
    if i > 0 {
        lemma_entry_lookup_found(m.drop_first(), key, i - 1);
    }
}

proof fn lemma_entry_lookup_absent(m: Seq<(Seq<char>, Seq<char>)>, key: Seq<char>)
    requires
        forall|j: int| 0 <= j < m.len() ==> m[j].0 != key,
    ensures
        entry_lookup(m, key) is None,
    decreases m.len(),
{
    if m.len() > 0 {
        lemma_entry_lookup_absent(m.drop_first(), key);
    }
}

/// Looks `key` up in an attribute list.
pub fn attr_get<'a>(entries: &'a Vec<(String, String)>, key: &str) -> (r: Option<&'a String>)
    ensures
        match r {
            Some(v) => entry_lookup(attr_entries(entries@), key@) == Some(v@),
            None => entry_lookup(attr_entries(entries@), key@) is None,
        },
{
    let n = entries.len();
    let mut i: usize = 0;
    while i < n
        invariant
            i <= n,
            n == entries@.len(),
            forall|j: int| 0 <= j < i ==> entries@[j].0@ != key@,
        decreases n - i,
    {
        let pair = &entries[i];
        if str_eq(pair.0.as_str(), key) {
            proof {
                lemma_entry_lookup_found(attr_entries(entries@), key@, i as int);
            }
            return Some(&entries[i].1);
        }
        i = i + 1;
    }
    proof {
        lemma_entry_lookup_absent(attr_entries(entries@), key@);
    }
    None
}

/// Inserts `key -> val`, overwriting the first entry with that key.
pub fn attr_set(entries: &mut Vec<(String, String)>, key: &str, val: &str)
    ensures
        attr_entries(final(entries)@) == entry_set(attr_entries(old(entries)@), key@, val@),
{
    let n = entries.len();
    let mut i: usize = 0;
    while i < n
        invariant
            i <= n,
            n == entries@.len(),
            entries@ == old(entries)@,
            forall|j: int| 0 <= j < i ==> entries@[j].0@ != key@,
        decreases n - i,
    {
        let hit = str_eq(entries[i].0.as_str(), key);
        if hit {
            entries[i] = (key.to_owned(), val.to_owned());
            proof {
                lemma_set_at(attr_entries(old(entries)@), key@, val@, i as int);
                assert(attr_entries(entries@) =~= attr_entries(old(entries)@).update(
                    i as int,
                    (key@, val@),
                ));
            }
            return ;
        }
        i = i + 1;
    }
    entries.push((key.to_owned(), val.to_owned()));
    proof {
        lemma_set_append(attr_entries(old(entries)@), key@, val@);
        assert(attr_entries(entries@) =~= attr_entries(old(entries)@).push((key@, val@)));
    }
}

/// Insertion at the first matching index is a pointwise update.
proof fn lemma_set_at(m: Seq<(Seq<char>, Seq<char>)>, key: Seq<char>, val: Seq<char>, i: int)
    requires
        0 <= i < m.len(),
        m[i].0 == key,
        forall|j: int| 0 <= j < i ==> m[j].0 != key,
    ensures
        entry_set(m, key, val) == m.update(i, (key, val)),
    decreases i,
{
    if i == 0 {
        assert(entry_set(m, key, val) =~= m.update(0, (key, val)));
    } else {
        lemma_set_at(m.drop_first(), key, val, i - 1);
        assert(m.drop_first().update(i - 1, (key, val)) =~= m.update(i, (key, val)).drop_first());
        assert(entry_set(m, key, val) =~= m.update(i, (key, val)));
    }
}

/// Insertion of an absent key appends.
proof fn lemma_set_append(m: Seq<(Seq<char>, Seq<char>)>, key: Seq<char>, val: Seq<char>)
    requires
        forall|j: int| 0 <= j < m.len() ==> m[j].0 != key,
    ensures
        entry_set(m, key, val) == m.push((key, val)),
    decreases m.len(),
{
    if m.len() == 0 {
        assert(entry_set(m, key, val) =~= m.push((key, val)));
    } else {
        lemma_set_append(m.drop_first(), key, val);
        assert(m.drop_first().push((key, val)) =~= m.push((key, val)).drop_first());
        assert(entry_set(m, key, val) =~= m.push((key, val)));
    }
}

} // verus!
