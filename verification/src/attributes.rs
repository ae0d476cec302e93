//! The attribute map of a signal: text keys in byte order, each with a text value.

use vstd::prelude::*;

use crate::text;

verus! {

/// Whether one byte string comes before another in lexicographic order.
pub open spec fn precedes(left: Seq<u8>, right: Seq<u8>) -> bool
    decreases left.len(),
{
    &&& right.len() > 0
    &&& {
        ||| left.len() == 0
        ||| left[0] < right[0]
        ||| left[0] == right[0] && precedes(left.drop_first(), right.drop_first())
    }
}

/// Whether one text comes before another in the order of their UTF-8 bytes.
pub open spec fn text_precedes(left: Seq<char>, right: Seq<char>) -> bool {
    precedes(vstd::utf8::encode_utf8(left), vstd::utf8::encode_utf8(right))
}

/// No byte string comes before itself.
proof fn lemma_precedes_irreflexive(bytes: Seq<u8>)
    ensures
        !precedes(bytes, bytes),
    decreases bytes.len(),
{
    if bytes.len() > 0 {
        lemma_precedes_irreflexive(bytes.drop_first());
    }
}

/// No text comes before itself.
pub proof fn lemma_text_precedes_irreflexive(key: Seq<char>)
    ensures
        !text_precedes(key, key),
{
    lemma_precedes_irreflexive(vstd::utf8::encode_utf8(key));
}

/// What comes before something that comes before a third comes before the third.
proof fn lemma_precedes_transitive(first: Seq<u8>, second: Seq<u8>, third: Seq<u8>)
    requires
        precedes(first, second),
        precedes(second, third),
    ensures
        precedes(first, third),
    decreases first.len(),
{
    if first.len() > 0 && first[0] == second[0] && second[0] == third[0] {
        lemma_precedes_transitive(first.drop_first(), second.drop_first(), third.drop_first());
    }
}

/// The order of keys is that of a dictionary over their bytes: one comes before another
/// exactly if, after a common start, it has ended or goes on with the smaller byte.
pub proof fn law_byte_order(left: Seq<u8>, right: Seq<u8>)
    ensures
        precedes(left, right) <==> exists|k: int| #[trigger] parts_at(left, right, k),
    decreases left.len(),
{
    if right.len() > 0 {
        if left.len() == 0 || left[0] < right[0] {
            assert(parts_at(left, right, 0));
        } else if left[0] == right[0] {
            law_byte_order(left.drop_first(), right.drop_first());
            if precedes(left, right) {
                let k = choose|k: int| #[trigger]
                    parts_at(left.drop_first(), right.drop_first(), k);
                assert forall|j: int| 0 <= j < k + 1 implies left[j] == right[j] by {
                    if j > 0 {
                        assert(left.drop_first()[j - 1] == right.drop_first()[j - 1]);
                    }
                }
                assert(parts_at(left, right, k + 1));
            }
            if exists|k: int| #[trigger] parts_at(left, right, k) {
                let k = choose|k: int| #[trigger] parts_at(left, right, k);
                assert(k > 0);
                assert forall|j: int| 0 <= j < k - 1 implies left.drop_first()[j]
                    == right.drop_first()[j] by {
                    assert(left[j + 1] == right[j + 1]);
                }
                assert(parts_at(left.drop_first(), right.drop_first(), k - 1));
            }
        } else if exists|k: int| #[trigger] parts_at(left, right, k) {
            let k = choose|k: int| #[trigger] parts_at(left, right, k);
            assert(left[0] == right[0] || k == 0);
        }
    }
}

/// Whether two byte strings agree before this place, and there the left one has ended or has
/// the smaller byte.
pub open spec fn parts_at(left: Seq<u8>, right: Seq<u8>, k: int) -> bool {
    &&& 0 <= k <= left.len()
    &&& k < right.len()
    &&& forall|j: int| 0 <= j < k ==> left[j] == right[j]
    &&& k == left.len() || left[k] < right[k]
}

/// Of two different byte strings one comes before the other.
proof fn lemma_precedes_total(left: Seq<u8>, right: Seq<u8>)
    requires
        left != right,
    ensures
        precedes(left, right) || precedes(right, left),
    decreases left.len(),
{
    if left.len() == 0 || right.len() == 0 {
        if left.len() == 0 && right.len() == 0 {
            assert(left =~= right);
        }
    } else if left[0] == right[0] {
        assert(left =~= seq![left[0]] + left.drop_first());
        assert(right =~= seq![right[0]] + right.drop_first());
        lemma_precedes_total(left.drop_first(), right.drop_first());
    }
}

/// Whether one byte string comes before another in lexicographic order.
fn is_before(left: &[u8], right: &[u8]) -> (before: bool)
    ensures
        before == precedes(left@, right@),
{
    let mut index: usize = 0;
    proof {
        assert(left@.skip(0) =~= left@);
        assert(right@.skip(0) =~= right@);
    }
    while index < left.len() && index < right.len()
        invariant
            index <= left@.len(),
            index <= right@.len(),
            precedes(left@, right@) == precedes(
                left@.skip(index as int),
                right@.skip(index as int),
            ),
        decreases left@.len() - index,
    {
        let a = left[index];
        let b = right[index];
        if a != b {
            return a < b;
        }
        proof {
            assert(left@.skip(index as int).drop_first() =~= left@.skip(index + 1));
            assert(right@.skip(index as int).drop_first() =~= right@.skip(index + 1));
        }
        index += 1;
    }
    index < right.len()
}

/// The map that a list of entries spells out; a later entry wins.
pub open spec fn entries_map(entries: Seq<(Seq<char>, Seq<char>)>) -> Map<Seq<char>, Seq<char>>
    decreases entries.len(),
{
    if entries.len() == 0 {
        Map::empty()
    } else {
        entries_map(entries.drop_last()).insert(entries.last().0, entries.last().1)
    }
}

/// Whether the keys of a list of entries are in strictly increasing order.
pub open spec fn in_key_order(entries: Seq<(Seq<char>, Seq<char>)>) -> bool {
    forall|i: int, j: int|
        0 <= i < j < entries.len() ==> text_precedes(
            (#[trigger] entries[i]).0,
            (#[trigger] entries[j]).0,
        )
}

/// The entries of an ordered list are exactly those of its map.
pub proof fn lemma_entries_map(entries: Seq<(Seq<char>, Seq<char>)>)
    requires
        in_key_order(entries),
    ensures
        entries_map(entries).dom().finite(),
        entries_map(entries).dom().len() == entries.len(),
        forall|key: Seq<char>| #[trigger]
            entries_map(entries).contains_key(key) <==> exists|i: int|
                0 <= i < entries.len() && (#[trigger] entries[i]).0 == key,
        forall|i: int|
            0 <= i < entries.len() ==> entries_map(entries)[(#[trigger] entries[i]).0]
                == entries[i].1,
    decreases entries.len(),
{
    if entries.len() > 0 {
        let rest = entries.drop_last();
        let last = entries.last();
        assert(in_key_order(rest)) by {
            assert forall|i: int, j: int| 0 <= i < j < rest.len() implies text_precedes(
                (#[trigger] rest[i]).0,
                (#[trigger] rest[j]).0,
            ) by {
                assert(rest[i] == entries[i] && rest[j] == entries[j]);
            }
        }
        lemma_entries_map(rest);
        assert forall|i: int| 0 <= i < rest.len() implies (#[trigger] rest[i]).0 != last.0 by {
            assert(text_precedes(entries[i].0, entries[entries.len() - 1].0));
            lemma_precedes_irreflexive(vstd::utf8::encode_utf8(last.0));
        }
        assert(!entries_map(rest).contains_key(last.0));
        assert forall|key: Seq<char>| #[trigger]
            entries_map(entries).contains_key(key) <==> exists|i: int|
                0 <= i < entries.len() && (#[trigger] entries[i]).0 == key by {
            if entries_map(rest).contains_key(key) {
                let i = choose|i: int| 0 <= i < rest.len() && (#[trigger] rest[i]).0 == key;
                assert(entries[i].0 == key);
            }
            if exists|i: int| 0 <= i < entries.len() && (#[trigger] entries[i]).0 == key {
                let i = choose|i: int| 0 <= i < entries.len() && (#[trigger] entries[i]).0 == key;
                if i < rest.len() {
                    assert(rest[i].0 == key);
                }
            }
            if key == last.0 {
                assert(entries[entries.len() - 1].0 == key);
            }
        }
        assert forall|i: int| 0 <= i < entries.len() implies entries_map(entries)[(
        #[trigger] entries[i]).0] == entries[i].1 by {
            if i < rest.len() {
                assert(rest[i] == entries[i]);
                assert(rest[i].0 != last.0);
            }
        }
    }
}

/// Attributes of one signal.
#[derive(Debug, Eq, PartialEq)]
pub struct Attributes {
    entries: Vec<(String, String)>,
}

impl View for Attributes {
    type V = Map<Seq<char>, Seq<char>>;

    closed spec fn view(&self) -> Map<Seq<char>, Seq<char>> {
        entries_map(self.entries())
    }
}

/// The texts of a list of entries.
spec fn entry_texts(entries: Seq<(String, String)>) -> Seq<(Seq<char>, Seq<char>)> {
    entries.map_values(|entry: (String, String)| (entry.0@, entry.1@))
}

/// Where a key stands, or belongs, in an ordered list of entries.
fn find(entries: &Vec<(String, String)>, key: &str) -> (place: (usize, bool))
    requires
        in_key_order(entry_texts(entries@)),
    ensures
        place.0 <= entries@.len(),
        forall|i: int| 0 <= i < place.0 ==> text_precedes((#[trigger] entries@[i]).0@, key@),
        place.1 ==> place.0 < entries@.len() && entries@[place.0 as int].0@ == key@,
        !place.1 ==> forall|i: int|
            place.0 <= i < entries@.len() ==> text_precedes(key@, (#[trigger] entries@[i]).0@),
{
    let mut index: usize = 0;
    while index < entries.len()
        invariant
            index <= entries@.len(),
            in_key_order(entry_texts(entries@)),
            forall|i: int| 0 <= i < index ==> text_precedes((#[trigger] entries@[i]).0@, key@),
        decreases entries@.len() - index,
    {
        let candidate = entries[index].0.as_str();
        if text::same_text(candidate, key) {
            return (index, true);
        }
        if !is_before(candidate.as_bytes(), key.as_bytes()) {
            proof {
                let wanted = vstd::utf8::encode_utf8(key@);
                let found = vstd::utf8::encode_utf8(candidate@);
                if wanted == found {
                    text::lemma_encoding_is_injective(key@, candidate@);
                }
                lemma_precedes_total(found, wanted);
                assert forall|i: int| index <= i < entries@.len() implies text_precedes(
                    key@,
                    (#[trigger] entries@[i]).0@,
                ) by {
                    if i > index {
                        let listed = entry_texts(entries@);
                        assert(text_precedes(listed[index as int].0, listed[i].0));
                        lemma_precedes_transitive(
                            wanted,
                            found,
                            vstd::utf8::encode_utf8(entries@[i].0@),
                        );
                    }
                }
            }
            return (index, false);
        }
        index += 1;
    }
    (index, false)
}

/// Two maps with the same listed entries are equal.
proof fn lemma_same_entries(
    entries: Seq<(Seq<char>, Seq<char>)>,
    expected: Map<Seq<char>, Seq<char>>,
)
    requires
        in_key_order(entries),
        forall|i: int|
            0 <= i < entries.len() ==> expected.contains_key((#[trigger] entries[i]).0)
                && expected[entries[i].0] == entries[i].1,
        forall|key: Seq<char>| #[trigger]
            expected.contains_key(key) ==> exists|i: int|
                0 <= i < entries.len() && (#[trigger] entries[i]).0 == key,
    ensures
        entries_map(entries) == expected,
{
    lemma_entries_map(entries);
    let listed = entries_map(entries);
    assert forall|key: Seq<char>| #[trigger] listed.contains_key(key) implies expected.contains_key(
        key,
    ) && expected[key] == listed[key] by {
        let i = choose|i: int| 0 <= i < entries.len() && (#[trigger] entries[i]).0 == key;
        assert(entries[i].0 == key);
    }
    assert(listed =~= expected);
}

/// Putting an entry where its key stands, or belongs, inserts it into the map.
proof fn lemma_put(
    before: Seq<(Seq<char>, Seq<char>)>,
    after: Seq<(Seq<char>, Seq<char>)>,
    index: int,
    found: bool,
    key: Seq<char>,
    value: Seq<char>,
)
    requires
        in_key_order(before),
        0 <= index <= before.len(),
        forall|i: int| 0 <= i < index ==> text_precedes((#[trigger] before[i]).0, key),
        found ==> index < before.len() && before[index].0 == key,
        !found ==> forall|i: int|
            index <= i < before.len() ==> text_precedes(key, (#[trigger] before[i]).0),
        after == (if found {
            before.update(index, (key, value))
        } else {
            before.insert(index, (key, value))
        }),
    ensures
        in_key_order(after),
        entries_map(after) == entries_map(before).insert(key, value),
        found <==> entries_map(before).contains_key(key),
        found ==> entries_map(before)[key] == before[index].1,
{
    lemma_entries_map(before);
    let listed = entries_map(before);
    assert(in_key_order(after)) by {
        assert forall|i: int, j: int| 0 <= i < j < after.len() implies text_precedes(
            (#[trigger] after[i]).0,
            (#[trigger] after[j]).0,
        ) by {
            if found {
                assert(text_precedes(before[i].0, before[j].0));
            } else {
                let from = if i < index {
                    i
                } else {
                    i - 1
                };
                let to = if j < index {
                    j
                } else {
                    j - 1
                };
                if i != index && j != index {
                    assert(text_precedes(before[from].0, before[to].0));
                } else if j == index {
                    assert(before[i].0 == after[i].0);
                } else {
                    assert(before[j - 1].0 == after[j].0);
                }
            }
        }
    }
    if !found {
        assert(!listed.contains_key(key)) by {
            if listed.contains_key(key) {
                let i = choose|i: int| 0 <= i < before.len() && (#[trigger] before[i]).0 == key;
                lemma_precedes_irreflexive(vstd::utf8::encode_utf8(key));
                assert(before[i].0 == key);
            }
        }
    } else {
        assert(before[index].0 == key);
    }
    let expected = listed.insert(key, value);
    assert forall|i: int| 0 <= i < after.len() implies expected.contains_key(
        (#[trigger] after[i]).0,
    ) && expected[after[i].0] == after[i].1 by {
        if i != index {
            let source = if found || i < index {
                i
            } else {
                i - 1
            };
            assert(after[i] == before[source]);
            assert(before[source].0 != key) by {
                if found {
                    lemma_precedes_irreflexive(vstd::utf8::encode_utf8(key));
                    if source < index {
                        assert(text_precedes(before[source].0, before[index].0));
                    } else {
                        assert(text_precedes(before[index].0, before[source].0));
                    }
                } else {
                    assert(listed.contains_key(before[source].0));
                }
            }
        }
    }
    assert forall|wanted: Seq<char>| #[trigger] expected.contains_key(wanted) implies exists|i: int|
        0 <= i < after.len() && (#[trigger] after[i]).0 == wanted by {
        if wanted == key {
            assert(after[index].0 == wanted);
        } else {
            let i = choose|i: int| 0 <= i < before.len() && (#[trigger] before[i]).0 == wanted;
            let moved = if found || i < index {
                i
            } else {
                i + 1
            };
            assert(after[moved].0 == wanted);
        }
    }
    lemma_same_entries(after, expected);
}

impl Clone for Attributes {
    fn clone(&self) -> (copy: Self)
        ensures
            copy@ == self@,
            copy.entries() == self.entries(),
    {
        proof {
            use_type_invariant(self);
        }
        let mut entries: Vec<(String, String)> = Vec::new();
        let mut index: usize = 0;
        while index < self.entries.len()
            invariant
                index <= self.entries@.len(),
                entry_texts(entries@) == entry_texts(self.entries@).take(index as int),
            decreases self.entries@.len() - index,
        {
            let key = self.entries[index].0.clone();
            let value = self.entries[index].1.clone();
            let ghost listed = entry_texts(entries@);
            entries.push((key, value));
            index += 1;
            assert(entry_texts(entries@) =~= listed.push((key@, value@)));
            assert(entry_texts(entries@) =~= entry_texts(self.entries@).take(index as int));
        }
        assert(entry_texts(entries@) =~= entry_texts(self.entries@));
        Attributes { entries }
    }
}

impl Attributes {
    /// The entries, in key order.
    pub closed spec fn entries(self) -> Seq<(Seq<char>, Seq<char>)> {
        entry_texts(self.entries@)
    }

    #[verifier::type_invariant]
    spec fn well_formed(self) -> bool {
        in_key_order(self.entries())
    }

    /// Creates an empty map.
    pub fn new() -> (attributes: Self)
        ensures
            attributes@ == Map::<Seq<char>, Seq<char>>::empty(),
    {
        let attributes = Attributes { entries: Vec::new() };
        assert(attributes.entries() =~= Seq::empty());
        attributes
    }

    /// Sets the value of a key, and returns the value that it replaces.
    pub fn insert(&mut self, key: String, value: String) -> (replaced: Option<String>)
        ensures
            final(self)@ == old(self)@.insert(key@, value@),
            match replaced {
                Some(previous) => old(self)@.contains_key(key@) && previous@ == old(self)@[key@],
                None => !old(self)@.contains_key(key@),
            },
    {
        proof {
            use_type_invariant(&*self);
        }
        let ghost before = self.entries();
        let mut entries: Vec<(String, String)> = Vec::new();
        std::mem::swap(&mut self.entries, &mut entries);
        let (index, found) = find(&entries, key.as_str());
        let ghost after = if found {
            before.update(index as int, (key@, value@))
        } else {
            before.insert(index as int, (key@, value@))
        };
        proof {
            assert forall|i: int| 0 <= i < before.len() implies (#[trigger] before[i]).0
                == entries@[i].0@ by {}
            lemma_put(before, after, index as int, found, key@, value@);
        }
        let replaced = if found {
            let (_, previous) = entries.remove(index);
            Some(previous)
        } else {
            None
        };
        entries.insert(index, (key, value));
        assert(entry_texts(entries@) =~= after);
        self.entries = entries;
        replaced
    }

    /// Returns the value of a key.
    pub fn get(&self, key: &str) -> (found: Option<&String>)
        ensures
            match found {
                Some(value) => self@.contains_key(key@) && value@ == self@[key@],
                None => !self@.contains_key(key@),
            },
    {
        proof {
            use_type_invariant(self);
        }
        let (index, found) = find(&self.entries, key);
        proof {
            let before = self.entries();
            let after = if found {
                before.update(index as int, (key@, key@))
            } else {
                before.insert(index as int, (key@, key@))
            };
            assert forall|i: int| 0 <= i < before.len() implies (#[trigger] before[i]).0
                == self.entries@[i].0@ by {}
            lemma_put(before, after, index as int, found, key@, key@);
        }
        if found {
            Some(&self.entries[index].1)
        } else {
            None
        }
    }

    /// Returns the number of attributes.
    pub fn len(&self) -> (len: usize)
        ensures
            len == self@.dom().len(),
            len == self.entries().len(),
            self@.dom().finite(),
            in_key_order(self.entries()),
            entries_map(self.entries()) == self@,
    {
        proof {
            use_type_invariant(self);
            lemma_entries_map(self.entries());
        }
        self.entries.len()
    }

    /// Returns whether there are no attributes.
    pub fn is_empty(&self) -> (empty: bool)
        ensures
            empty == (self@ == Map::<Seq<char>, Seq<char>>::empty()),
    {
        proof {
            use_type_invariant(self);
            lemma_entries_map(self.entries());
            if self.entries().len() == 0 {
                assert(self@ =~= Map::empty());
            }
        }
        self.entries.len() == 0
    }

    /// Returns one attribute, by its position in key order.
    pub fn entry(&self, index: usize) -> (entry: (&str, &str))
        requires
            index < self.entries().len(),
        ensures
            (entry.0@, entry.1@) == self.entries()[index as int],
            in_key_order(self.entries()),
            entries_map(self.entries()) == self@,
    {
        proof {
            use_type_invariant(self);
        }
        (self.entries[index].0.as_str(), self.entries[index].1.as_str())
    }
}

} // verus!
