//! A transport-agnostic carrier: a mapping from string keys to string values
//! whose only operations are setting a key and getting a key.

use vstd::prelude::*;

verus! {

/// The key under which a header collection or a carrier holds its entries,
/// as text.
pub type Text = Seq<char>;

/// Whether index `i` of `pairs` holds the key `key`.
pub open spec fn key_at(pairs: Seq<(String, String)>, i: int, key: Text) -> bool {
    0 <= i < pairs.len() && pairs[i].0@ == key
}

/// Whether no key occurs twice in `pairs`.
pub open spec fn distinct_keys(pairs: Seq<(String, String)>) -> bool {
    forall|i: int, j: int|
        0 <= i < pairs.len() && 0 <= j < pairs.len() && #[trigger] pairs[i].0@
            == #[trigger] pairs[j].0@ ==> i == j
}

/// The first index of `pairs` that holds `key`, when there is one.
pub open spec fn first_index(pairs: Seq<(String, String)>, key: Text) -> int {
    choose|i: int| key_at(pairs, i, key) && forall|j: int| 0 <= j < i ==> !key_at(pairs, j, key)
}

/// The mapping that a list of pairs stands for. Where a key occurs more than
/// once, its first pair counts.
pub open spec fn mapping_of(pairs: Seq<(String, String)>) -> Map<Text, Text> {
    Map::new(
        |key: Text| exists|i: int| key_at(pairs, i, key),
        |key: Text| pairs[first_index(pairs, key)].1@,
    )
}

/// A key that occurs in `pairs` has a first occurrence.
pub proof fn lemma_first_index(pairs: Seq<(String, String)>, key: Text, i: int)
    requires
        key_at(pairs, i, key),
    ensures
        key_at(pairs, first_index(pairs, key), key),
        first_index(pairs, key) <= i,
        forall|j: int| 0 <= j < first_index(pairs, key) ==> !key_at(pairs, j, key),
    decreases i,
{
    if exists|j: int| 0 <= j < i && key_at(pairs, j, key) {
        let j = choose|j: int| 0 <= j < i && key_at(pairs, j, key);
        lemma_first_index(pairs, key, j);
    } else {
        assert(key_at(pairs, i, key) && forall|j: int| 0 <= j < i ==> !key_at(pairs, j, key));
        let f = first_index(pairs, key);
        if f > i {
            assert(!key_at(pairs, i, key));
        }
    }
}

/// Among distinct keys each pair is the one that counts for its key.
pub proof fn lemma_mapping_at(pairs: Seq<(String, String)>, i: int)
    requires
        distinct_keys(pairs),
        0 <= i < pairs.len(),
    ensures
        mapping_of(pairs).contains_key(pairs[i].0@),
        mapping_of(pairs)[pairs[i].0@] == pairs[i].1@,
{
    let key = pairs[i].0@;
    assert(key_at(pairs, i, key));
    lemma_first_index(pairs, key, i);
}

/// What a mapping holds under `key`, if anything.
pub open spec fn lookup(mapping: Map<Text, Text>, key: Text) -> Option<Text> {
    if mapping.contains_key(key) {
        Some(mapping[key])
    } else {
        None
    }
}

/// The text of a string that may be missing.
pub open spec fn text_of(value: Option<String>) -> Option<Text> {
    match value {
        Some(v) => Some(v@),
        None => None,
    }
}

/// The mapping after each of `pairs` was set in it, first to last.
pub open spec fn with_pairs(mapping: Map<Text, Text>, pairs: Seq<(String, String)>) -> Map<
    Text,
    Text,
>
    decreases pairs.len(),
{
    if pairs.len() == 0 {
        mapping
    } else {
        with_pairs(mapping, pairs.drop_last()).insert(pairs.last().0@, pairs.last().1@)
    }
}

/// A mapping from string keys to string values.
pub struct Carrier {
    entries: Vec<(String, String)>,
}

impl View for Carrier {
    type V = Map<Text, Text>;

    closed spec fn view(&self) -> Map<Text, Text> {
        mapping_of(self.entries@)
    }
}

impl Carrier {
    #[verifier::type_invariant]
    spec fn keys_are_distinct(&self) -> bool {
        distinct_keys(self.entries@)
    }

    /// A carrier without entries.
    pub fn new() -> (carrier: Carrier)
        ensures
            carrier@ == Map::<Text, Text>::empty(),
    {
        let carrier = Carrier { entries: Vec::new() };
        assert(carrier@ =~= Map::<Text, Text>::empty());
        carrier
    }

    /// How many keys the carrier holds.
    pub fn len(&self) -> (n: usize)
        ensures
            n == self@.dom().len(),
            self@.dom().finite(),
    {
        proof {
            use_type_invariant(self);
            lemma_domain_size(self.entries@);
        }
        self.entries.len()
    }

    /// The value under `key`, if the carrier holds that key.
    pub fn get(&self, key: &str) -> (value: Option<String>)
        ensures
            text_of(value) == lookup(self@, key@),
    {
        proof {
            use_type_invariant(self);
        }
        let wanted = key.to_owned();
        let mut i: usize = 0;
        while i < self.entries.len()
            invariant
                i <= self.entries.len(),
                wanted@ == key@,
                distinct_keys(self.entries@),
                forall|j: int| 0 <= j < i ==> !key_at(self.entries@, j, key@),
            decreases self.entries.len() - i,
        {
            if self.entries[i].0 == wanted {
                proof {
                    lemma_mapping_at(self.entries@, i as int);
                }
                return Some(self.entries[i].1.clone());
            }
            i += 1;
        }
        None
    }

    /// Sets `key` to `value`, replacing what `key` held before. The other
    /// keys keep their values.
    pub fn set(&mut self, key: &str, value: String)
        ensures
            final(self)@ == old(self)@.insert(key@, value@),
    {
        proof {
            use_type_invariant(&*self);
        }
        let wanted = key.to_owned();
        let mut taken = Carrier { entries: Vec::new() };
        std::mem::swap(self, &mut taken);
        let Carrier { entries } = taken;
        let mut entries = entries;
        let ghost before = entries@;
        let mut i: usize = 0;
        while i < entries.len() && entries[i].0 != wanted
            invariant
                i <= entries.len(),
                entries@ == before,
                forall|j: int| 0 <= j < i ==> !key_at(before, j, wanted@),
            decreases entries.len() - i,
        {
            i += 1;
        }
        if i < entries.len() {
            entries.set(i, (wanted, value));
            proof {
                lemma_replace(before, i as int, entries@);
            }
        } else {
            entries.push((wanted, value));
            proof {
                lemma_append(before, entries@);
            }
        }
        *self = Carrier { entries };
    }

    /// Sets each of `pairs`, first to last, so that of two pairs with one
    /// key the later counts.
    pub fn set_all(&mut self, pairs: &Vec<(String, String)>)
        ensures
            final(self)@ == with_pairs(old(self)@, pairs@),
    {
        let mut i: usize = 0;
        while i < pairs.len()
            invariant
                i <= pairs.len(),
                self@ == with_pairs(old(self)@, pairs@.take(i as int)),
            decreases pairs.len() - i,
        {
            self.set(pairs[i].0.as_str(), pairs[i].1.clone());
            proof {
                assert(pairs@.take(i + 1).drop_last() =~= pairs@.take(i as int));
            }
            i += 1;
        }
        proof {
            assert(pairs@.take(pairs.len() as int) =~= pairs@);
        }
    }

    /// The entries, one pair for each key, in no stated order.
    pub fn entries(&self) -> (pairs: Vec<(String, String)>)
        ensures
            distinct_keys(pairs@),
            mapping_of(pairs@) == self@,
    {
        proof {
            use_type_invariant(self);
        }
        let mut pairs: Vec<(String, String)> = Vec::new();
        let mut i: usize = 0;
        while i < self.entries.len()
            invariant
                i <= self.entries.len(),
                pairs@.len() == i,
                forall|j: int|
                    0 <= j < i ==> (#[trigger] pairs@[j]).0@ == self.entries@[j].0@ && pairs@[j].1@
                        == self.entries@[j].1@,
            decreases self.entries.len() - i,
        {
            pairs.push((self.entries[i].0.clone(), self.entries[i].1.clone()));
            i += 1;
        }
        proof {
            lemma_same_views(self.entries@, pairs@);
        }
        pairs
    }
}

/// Replacing the value of the pair at `i` sets that pair's key in the mapping.
proof fn lemma_replace(before: Seq<(String, String)>, i: int, after: Seq<(String, String)>)
    requires
        distinct_keys(before),
        0 <= i < before.len(),
        after.len() == before.len(),
        after[i].0@ == before[i].0@,
        forall|j: int| 0 <= j < before.len() && j != i ==> after[j] == before[j],
    ensures
        distinct_keys(after),
        mapping_of(after) =~= mapping_of(before).insert(after[i].0@, after[i].1@),
{
    assert forall|a: int, b: int|
        0 <= a < after.len() && 0 <= b < after.len() && #[trigger] after[a].0@
            == #[trigger] after[b].0@ implies a == b by {
        assert(before[a].0@ == after[a].0@);
        assert(before[b].0@ == after[b].0@);
    }
    let target = mapping_of(before).insert(after[i].0@, after[i].1@);
    assert forall|key: Text| mapping_of(after).contains_key(key) == target.contains_key(key) by {
        if mapping_of(after).contains_key(key) {
            let j = choose|j: int| key_at(after, j, key);
            assert(before[j].0@ == after[j].0@);
            assert(key_at(before, j, key));
        }
        if target.contains_key(key) && key != after[i].0@ {
            let j = choose|j: int| key_at(before, j, key);
            assert(before[j].0@ == after[j].0@);
            assert(key_at(after, j, key));
        }
        if key == after[i].0@ {
            assert(key_at(after, i, key));
        }
    }
    assert forall|key: Text| mapping_of(after).contains_key(key) implies mapping_of(after)[key]
        == target[key] by {
        let j = choose|j: int| key_at(after, j, key);
        lemma_mapping_at(after, j);
        if j != i {
            assert(before[j].0@ == after[j].0@);
            lemma_mapping_at(before, j);
        }
    }
}

/// Appending a pair with a new key sets that key in the mapping.
proof fn lemma_append(before: Seq<(String, String)>, after: Seq<(String, String)>)
    requires
        distinct_keys(before),
        after.len() == before.len() + 1,
        forall|j: int| 0 <= j < before.len() ==> after[j] == before[j],
        forall|j: int| 0 <= j < before.len() ==> !key_at(before, j, after.last().0@),
    ensures
        distinct_keys(after),
        mapping_of(after) =~= mapping_of(before).insert(after.last().0@, after.last().1@),
{
    let n = before.len() as int;
    assert forall|a: int, b: int|
        0 <= a < after.len() && 0 <= b < after.len() && #[trigger] after[a].0@
            == #[trigger] after[b].0@ implies a == b by {
        if a < n && b < n {
            assert(before[a].0@ == before[b].0@);
        } else if a < n {
            assert(key_at(before, a, after.last().0@));
        } else if b < n {
            assert(key_at(before, b, after.last().0@));
        }
    }
    let target = mapping_of(before).insert(after.last().0@, after.last().1@);
    assert forall|key: Text| mapping_of(after).contains_key(key) == target.contains_key(key) by {
        if mapping_of(after).contains_key(key) {
            let j = choose|j: int| key_at(after, j, key);
            if j < n {
                assert(key_at(before, j, key));
            }
        }
        if mapping_of(before).contains_key(key) {
            let j = choose|j: int| key_at(before, j, key);
            assert(key_at(after, j, key));
        }
        if key == after.last().0@ {
            assert(key_at(after, n, key));
        }
    }
    assert forall|key: Text| mapping_of(after).contains_key(key) implies mapping_of(after)[key]
        == target[key] by {
        let j = choose|j: int| key_at(after, j, key);
        lemma_mapping_at(after, j);
        if j < n {
            lemma_mapping_at(before, j);
        }
    }
}

/// Lists whose pairs read the same, index by index, stand for one mapping.
proof fn lemma_same_views(a: Seq<(String, String)>, b: Seq<(String, String)>)
    requires
        distinct_keys(a),
        a.len() == b.len(),
        forall|j: int|
            0 <= j < a.len() ==> (#[trigger] b[j]).0@ == a[j].0@ && b[j].1@ == a[j].1@,
    ensures
        distinct_keys(b),
        mapping_of(b) =~= mapping_of(a),
{
    assert forall|x: int, y: int|
        0 <= x < b.len() && 0 <= y < b.len() && #[trigger] b[x].0@
            == #[trigger] b[y].0@ implies x == y by {
        assert(a[x].0@ == b[x].0@);
        assert(a[y].0@ == b[y].0@);
    }
    assert forall|key: Text| mapping_of(b).contains_key(key) == mapping_of(a).contains_key(
        key,
    ) by {
        if mapping_of(b).contains_key(key) {
            let j = choose|j: int| key_at(b, j, key);
            assert(a[j].0@ == b[j].0@);
            assert(key_at(a, j, key));
        }
        if mapping_of(a).contains_key(key) {
            let j = choose|j: int| key_at(a, j, key);
            assert(a[j].0@ == b[j].0@);
            assert(key_at(b, j, key));
        }
    }
    assert forall|key: Text| mapping_of(b).contains_key(key) implies mapping_of(b)[key]
        == mapping_of(a)[key] by {
        let j = choose|j: int| key_at(b, j, key);
        assert(a[j].0@ == b[j].0@);
        lemma_mapping_at(b, j);
        lemma_mapping_at(a, j);
    }
}

/// Setting distinct keys one after the other, on an empty mapping, gives the
/// mapping that the list stands for.
pub proof fn lemma_with_pairs_distinct(pairs: Seq<(String, String)>)
    requires
        distinct_keys(pairs),
    ensures
        with_pairs(Map::<Text, Text>::empty(), pairs) == mapping_of(pairs),
    decreases pairs.len(),
{
    if pairs.len() == 0 {
        assert(mapping_of(pairs) =~= Map::<Text, Text>::empty());
    } else {
        let front = pairs.drop_last();
        assert forall|i: int, j: int|
            0 <= i < front.len() && 0 <= j < front.len() && #[trigger] front[i].0@
                == #[trigger] front[j].0@ implies i == j by {
            assert(pairs[i].0@ == pairs[j].0@);
        }
        lemma_with_pairs_distinct(front);
        assert forall|j: int| 0 <= j < front.len() implies !key_at(front, j, pairs.last().0@) by {
            if key_at(front, j, pairs.last().0@) {
                assert(pairs[j].0@ == pairs[pairs.len() - 1].0@);
            }
        }
        lemma_append(front, pairs);
    }
}

/// A list of distinct keys stands for a mapping with as many keys as pairs.
pub proof fn lemma_domain_size(pairs: Seq<(String, String)>)
    requires
        distinct_keys(pairs),
    ensures
        mapping_of(pairs).dom().finite(),
        mapping_of(pairs).dom().len() == pairs.len(),
    decreases pairs.len(),
{
    if pairs.len() == 0 {
        assert(mapping_of(pairs).dom() =~= Set::<Text>::empty());
    } else {
        let front = pairs.drop_last();
        assert forall|i: int, j: int|
            0 <= i < front.len() && 0 <= j < front.len() && #[trigger] front[i].0@
                == #[trigger] front[j].0@ implies i == j by {
            assert(pairs[i].0@ == pairs[j].0@);
        }
        lemma_domain_size(front);
        assert forall|j: int| 0 <= j < front.len() implies !key_at(front, j, pairs.last().0@) by {
            if key_at(front, j, pairs.last().0@) {
                assert(pairs[j].0@ == pairs[pairs.len() - 1].0@);
            }
        }
        lemma_append(front, pairs);
        assert(!mapping_of(front).dom().contains(pairs.last().0@)) by {
            if mapping_of(front).contains_key(pairs.last().0@) {
                let j = choose|j: int| key_at(front, j, pairs.last().0@);
                assert(!key_at(front, j, pairs.last().0@));
            }
        }
        assert(mapping_of(pairs).dom() =~= mapping_of(front).dom().insert(pairs.last().0@));
    }
}

} // verus!
