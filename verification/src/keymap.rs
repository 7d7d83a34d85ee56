//! The maps from legacy keys to the ids that an import gave the records.
use vstd::prelude::*;

verus! {

/// A map from text keys to ids. A later entry for a key stands over an
/// earlier one, as a later `insert` does in a map.
#[derive(Debug, Clone, PartialEq)]
pub struct KeyMap {
    entries: Vec<(String, i64)>,
}

pub open spec fn entries_map(es: Seq<(String, i64)>) -> Map<Seq<char>, i64>
    decreases es.len(),
{
    if es.len() == 0 {
        Map::empty()
    } else {
        entries_map(es.drop_last()).insert(es.last().0@, es.last().1)
    }
}

proof fn lemma_entries_map_lookup(es: Seq<(String, i64)>, key: Seq<char>, j: int)
    requires
        0 <= j < es.len(),
        es[j].0@ == key,
        forall|t: int| j < t < es.len() ==> (#[trigger] es[t]).0@ != key,
    ensures
        entries_map(es).contains_key(key),
        entries_map(es)[key] == es[j].1,
    decreases es.len(),
{
    if j < es.len() - 1 {
        lemma_entries_map_lookup(es.drop_last(), key, j);
    }
}

proof fn lemma_entries_map_absent(es: Seq<(String, i64)>, key: Seq<char>)
    requires
        forall|t: int| 0 <= t < es.len() ==> (#[trigger] es[t]).0@ != key,
    ensures
        !entries_map(es).contains_key(key),
    decreases es.len(),
{
    if es.len() > 0 {
        lemma_entries_map_absent(es.drop_last(), key);
    }
}

impl View for KeyMap {
    type V = Map<Seq<char>, i64>;

    closed spec fn view(&self) -> Map<Seq<char>, i64> {
        entries_map(self.entries@)
    }
}

impl KeyMap {
    /// A map with no keys.
    pub fn new() -> (r: KeyMap)
        ensures
            r@ == Map::<Seq<char>, i64>::empty(),
    {
        KeyMap { entries: Vec::new() }
    }

    /// Maps `key` to `value`, replacing what it was mapped to.
    pub fn insert(&mut self, key: String, value: i64)
        ensures
            final(self)@ == old(self)@.insert(key@, value),
    {
        let ghost before = self.entries@;
        self.entries.push((key, value));
        assert(self.entries@.drop_last() =~= before);
    }

    /// What `key` is mapped to, if anything.
    pub fn get(&self, key: &str) -> (r: Option<i64>)
        ensures
            r == (if self@.contains_key(key@) {
                Some(self@[key@])
            } else {
                None
            }),
    {
        let mut i: usize = self.entries.len();
        while i > 0
            invariant
                i <= self.entries.len(),
                forall|t: int| i <= t < self.entries@.len() ==> (#[trigger] self.entries@[t]).0@
                    != key@,
            decreases i,
        {
            let candidate = &self.entries[i - 1];
            if text_eq(candidate.0.as_str(), key) {
                proof {
                    lemma_entries_map_lookup(self.entries@, key@, i - 1);
                }
                return Some(candidate.1);
            }
            i = i - 1;
        }
        proof {
            lemma_entries_map_absent(self.entries@, key@);
        }
        None
    }
}

/// Whether two texts are equal.
fn text_eq(a: &str, b: &str) -> (r: bool)
    ensures
        r == (a@ == b@),
{
    let x = String::from_str(a);
    let y = String::from_str(b);
    x == y
}

/// The ids an import has given so far, by legacy key.
#[derive(Debug, Clone, PartialEq)]
pub struct ImportContext {
    pub member_map: KeyMap,
    pub gift_map: KeyMap,
}

impl Default for ImportContext {
    fn default() -> (r: ImportContext)
        ensures
            r.member_map@ == Map::<Seq<char>, i64>::empty(),
            r.gift_map@ == Map::<Seq<char>, i64>::empty(),
    {
        ImportContext { member_map: KeyMap::new(), gift_map: KeyMap::new() }
    }
}

/// A key maps to what was inserted for it last; other keys keep what they
/// mapped to.
pub proof fn lemma_keymap_read_after_insert(m: Map<Seq<char>, i64>, k: Seq<char>, v: i64, other: Seq<char>)
    requires
        other != k,
    ensures
        m.insert(k, v)[k] == v,
        m.insert(k, v).contains_key(other) == m.contains_key(other),
        m.contains_key(other) ==> m.insert(k, v)[other] == m[other],
{
}

} // verus!
