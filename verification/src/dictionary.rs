//! The table of named driver counters.

use bevy::utils::HashMap;
use vstd::prelude::*;

verus! {

/// A table from driver names to counters, kept in a `bevy::utils::HashMap`.
///
/// Verus does not look inside the map. What it holds is `dictionary_entries`,
/// and the functions below that touch the map state their effect on it.
#[verifier::external_body]
#[derive(Debug)]
pub struct DriverDictionary(HashMap<String, usize>);

/// The entries of a dictionary: each name that has a counter, with that counter.
pub uninterp spec fn dictionary_entries(d: DriverDictionary) -> Map<Seq<char>, usize>;

/// What a dictionary holds, as a map from names to counters.
pub type Counters = Map<Seq<char>, usize>;

/// The map without entries.
pub open spec fn no_counters() -> Counters {
    Map::empty()
}

/// The counter that `entries` gives to `name`: zero for a name without an entry.
pub open spec fn counter_of(entries: Counters, name: Seq<char>) -> usize {
    if entries.contains_key(name) {
        entries[name]
    } else {
        0
    }
}

/// `entries` after every entry of `incoming` has been written over it.
pub open spec fn merged(entries: Counters, incoming: Counters) -> Counters {
    entries.union_prefer_right(incoming)
}

impl View for DriverDictionary {
    type V = Counters;

    open spec fn view(&self) -> Counters {
        dictionary_entries(*self)
    }
}

/// `HashMap::new` makes a map without entries.
#[verifier::external_body]
fn empty_map() -> (d: DriverDictionary)
    ensures
        dictionary_entries(d) == no_counters(),
{
    DriverDictionary(HashMap::new())
}

/// `HashMap::get` returns the value stored under the key, if the key is present.
/// Two strings are the same key exactly when they hold the same characters.
#[verifier::external_body]
fn map_get<'a>(d: &'a DriverDictionary, k: &String) -> (found: Option<&'a usize>)
    ensures
        found == (if dictionary_entries(*d).contains_key(k@) {
            Some(&dictionary_entries(*d)[k@])
        } else {
            None
        }),
{
    d.0.get(k)
}

/// `HashMap::insert` stores the value under the key, in place of any value that
/// was there, and returns the value that was there.
#[verifier::external_body]
fn map_insert(d: &mut DriverDictionary, k: String, v: usize) -> (previous: Option<usize>)
    ensures
        dictionary_entries(*final(d)) == dictionary_entries(*old(d)).insert(k@, v),
        previous == (if dictionary_entries(*old(d)).contains_key(k@) {
            Some(dictionary_entries(*old(d))[k@])
        } else {
            None
        }),
{
    d.0.insert(k, v)
}

/// `HashMap::clear` removes every entry.
#[verifier::external_body]
fn map_clear(d: &mut DriverDictionary)
    ensures
        dictionary_entries(*final(d)) == no_counters(),
{
    d.0.clear()
}

/// `HashMap::iter` visits every entry of the map, in an order that is not fixed.
/// Each pair handed out is an entry, and every entry is among the pairs.
#[verifier::external_body]
fn map_pairs(d: &DriverDictionary) -> (pairs: Vec<(String, usize)>)
    ensures
        forall|i: int|
            0 <= i < pairs@.len() ==> dictionary_entries(*d).contains_pair(
                (#[trigger] pairs@[i]).0@,
                pairs@[i].1,
            ),
        forall|k: Seq<char>| #[trigger]
            dictionary_entries(*d).contains_key(k) ==> exists|i: int|
                0 <= i < pairs@.len() && (#[trigger] pairs@[i]).0@ == k,
{
    d.0.iter().map(|(k, v)| (k.clone(), *v)).collect()
}

/// Whether `name` is the name of one of the first `n` pairs.
spec fn listed(pairs: Seq<(String, usize)>, n: int, name: Seq<char>) -> bool {
    exists|j: int| 0 <= j < n && j < pairs.len() && (#[trigger] pairs[j]).0@ == name
}

/// `entries` after the counters that `incoming` gives to the names of the first
/// `n` pairs have been written over it.
spec fn merged_through(
    entries: Counters,
    incoming: Counters,
    pairs: Seq<(String, usize)>,
    n: int,
) -> Counters {
    Map::new(
        |k: Seq<char>| entries.contains_key(k) || listed(pairs, n, k),
        |k: Seq<char>|
            if listed(pairs, n, k) {
                incoming[k]
            } else {
                entries[k]
            },
    )
}

/// One more pair lists one more name, and no other.
proof fn lemma_listed_step(pairs: Seq<(String, usize)>, n: int)
    requires
        0 <= n < pairs.len(),
    ensures
        forall|k: Seq<char>| #[trigger]
            listed(pairs, n + 1, k) <==> listed(pairs, n, k) || k == pairs[n].0@,
{
    assert forall|k: Seq<char>| #[trigger]
        listed(pairs, n + 1, k) <==> listed(pairs, n, k) || k == pairs[n].0@ by {
        if listed(pairs, n + 1, k) {
            let j = choose|j: int|
                0 <= j < n + 1 && j < pairs.len() && (#[trigger] pairs[j]).0@ == k;
            if j < n {
                assert(listed(pairs, n, k));
            }
        }
        if listed(pairs, n, k) {
            let j = choose|j: int| 0 <= j < n && j < pairs.len() && (#[trigger] pairs[j]).0@ == k;
            assert(0 <= j < n + 1 && pairs[j].0@ == k);
        }
        if k == pairs[n].0@ {
            assert(0 <= n < n + 1 && pairs[n].0@ == k);
        }
    }
}

impl DriverDictionary {
    /// A dictionary without entries.
    pub fn new() -> (d: Self)
        ensures
            d@ == no_counters(),
    {
        empty_map()
    }

    /// The counter of `k`, or zero where `k` has none.
    pub fn get(&self, k: String) -> (value: usize)
        ensures
            value == counter_of(self@, k@),
    {
        if let Some(value) = map_get(self, &k) {
            *value
        } else {
            0
        }
    }

    /// Sets the counter of `k` to `v` and returns the counter that `k` had.
    pub fn insert(&mut self, k: String, v: usize) -> (previous: Option<usize>)
        ensures
            final(self)@ == old(self)@.insert(k@, v),
            previous == (if old(self)@.contains_key(k@) {
                Some(old(self)@[k@])
            } else {
                None
            }),
    {
        map_insert(self, k, v)
    }

    /// Writes every entry of `value` over this dictionary. Names that `value`
    /// does not hold keep their counters.
    pub fn merge(&mut self, value: &DriverDictionary)
        ensures
            final(self)@ == merged(old(self)@, value@),
    {
        let pairs = map_pairs(value);
        let mut i: usize = 0;
        while i < pairs.len()
            invariant
                i <= pairs@.len(),
                forall|k: Seq<char>| #[trigger]
                    value@.contains_key(k) ==> exists|j: int|
                        0 <= j < pairs@.len() && (#[trigger] pairs@[j]).0@ == k,
                forall|j: int|
                    0 <= j < pairs@.len() ==> value@.contains_pair(
                        (#[trigger] pairs@[j]).0@,
                        pairs@[j].1,
                    ),
                self@ =~= merged_through(old(self)@, value@, pairs@, i as int),
            decreases pairs@.len() - i,
        {
            let name = pairs[i].0.clone();
            let counter: usize = pairs[i].1;
            self.insert(name, counter);
            proof {
                lemma_listed_step(pairs@, i as int);
                assert(value@.contains_pair(pairs@[i as int].0@, pairs@[i as int].1));
            }
            i += 1;
        }
        proof {
            assert forall|k: Seq<char>| #[trigger]
                listed(pairs@, i as int, k) implies value@.contains_key(k) by {
                let j = choose|j: int|
                    0 <= j < i && j < pairs@.len() && (#[trigger] pairs@[j]).0@ == k;
                assert(value@.contains_pair(pairs@[j].0@, pairs@[j].1));
            }
            assert forall|k: Seq<char>| #[trigger]
                value@.contains_key(k) implies listed(pairs@, i as int, k) by {
                let j = choose|j: int| 0 <= j < pairs@.len() && (#[trigger] pairs@[j]).0@ == k;
                assert(0 <= j < i && pairs@[j].0@ == k);
            }
            assert(self@ =~= merged(old(self)@, value@));
        }
    }

    /// Removes every entry.
    pub fn clear(&mut self)
        ensures
            final(self)@ == no_counters(),
    {
        map_clear(self)
    }
}

/// Reading a counter depends on the entries and on the characters of the name
/// alone: while no entry is written, every read of a name gives the same value.
pub proof fn lemma_get_is_stable(
    first: DriverDictionary,
    second: DriverDictionary,
    name: Seq<char>,
)
    requires
        first@ == second@,
    ensures
        counter_of(first@, name) == counter_of(second@, name),
{
}

/// After a merge, a name that the incoming dictionary holds reads as the
/// incoming counter, whatever it read as before; any other name reads as before.
pub proof fn lemma_merge_overwrites(entries: Counters, incoming: Counters, name: Seq<char>)
    ensures
        incoming.contains_key(name) ==> counter_of(merged(entries, incoming), name)
            == incoming[name],
        !incoming.contains_key(name) ==> counter_of(merged(entries, incoming), name) == counter_of(
            entries,
            name,
        ),
{
}

impl Default for DriverDictionary {
    fn default() -> (d: Self)
        ensures
            d@ == no_counters(),
    {
        DriverDictionary::new()
    }
}

} // verus!
