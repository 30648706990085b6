use vstd::prelude::*;
use chashmap::CHashMap;
use crate::endpoint::Endpoint;

verus! {

#[verifier::external_type_specification]
#[verifier::external_body]
#[verifier::reject_recursive_types(K)]
#[verifier::reject_recursive_types(V)]
pub struct ExCHashMap<K, V>(CHashMap<K, V>);

/// How a stored pair is keyed: the endpoint's fields and the message text.
pub type StoredKey = (u128, u16, bool, String);

/// A stored key as a plain value.
pub type KeyView = (u128, u16, bool, Seq<char>);

/// What a concurrent map of counters holds, key by key.
pub uninterp spec fn counts_of(m: CHashMap<StoredKey, u64>) -> Map<KeyView, u64>;

/// The table with no pair in it.
pub open spec fn no_counts() -> Map<KeyView, u64> {
    Map::empty()
}

pub open spec fn key_view(k: StoredKey) -> KeyView {
    (k.0, k.1, k.2, k.3@)
}

/// The key of a message observed from an endpoint.
pub open spec fn key_of(e: Endpoint, msg: Seq<char>) -> KeyView {
    (e.ip, e.port, e.v6, msg)
}

/// A counter after one more sighting: one for a fresh pair, otherwise one
/// more, held at the largest value a counter can take.
pub open spec fn bumped(prev: Option<u64>) -> u64 {
    match prev {
        None => 1,
        Some(n) => if n == u64::MAX { n } else { (n + 1) as u64 },
    }
}

pub open spec fn lookup(m: Map<KeyView, u64>, k: KeyView) -> Option<u64> {
    if m.contains_key(k) { Some(m[k]) } else { None }
}

/// The value of a counter for a fresh pair.
pub fn first_count() -> (r: u64)
    ensures
        r == bumped(None),
{
    1
}

/// Advances a counter by one, held at the largest value.
pub fn bump(c: &mut u64)
    ensures
        *final(c) == bumped(Some(*old(c))),
{
    if *c < u64::MAX {
        *c = *c + 1;
    }
}

/// Relies on `CHashMap::new`: a map with no entries.
#[verifier::external_body]
fn new_counts() -> (r: CHashMap<StoredKey, u64>)
    ensures
        counts_of(r) == no_counts(),
{
    CHashMap::new()
}

/// Relies on `CHashMap::upsert`: under the entry's own lock, a present key has
/// its value passed to `update`, an absent one is inserted with the value of
/// `insert`; no other entry changes.
#[verifier::external_body]
fn upsert_count(m: &mut CHashMap<StoredKey, u64>, key: StoredKey)
    ensures
        counts_of(*final(m)) == counts_of(*old(m)).insert(
            key_view(key),
            bumped(lookup(counts_of(*old(m)), key_view(key))),
        ),
{
    m.upsert(key, || first_count(), |c| bump(c))
}

/// Relies on `CHashMap::get`: the value stored under the key, if any.
#[verifier::external_body]
fn get_count(m: &CHashMap<StoredKey, u64>, key: &StoredKey) -> (r: Option<u64>)
    ensures
        r == lookup(counts_of(*m), key_view(*key)),
{
    m.get(key).map(|g| *g)
}

/// Relies on `CHashMap`'s `Clone`: a map with the same entries.
#[verifier::external_body]
fn clone_counts(m: &CHashMap<StoredKey, u64>) -> (r: CHashMap<StoredKey, u64>)
    ensures
        counts_of(r) == counts_of(*m),
{
    m.clone()
}

/// The table of responses: for each endpoint and message, how many times the
/// message was read from that endpoint. Each entry has its own lock inside
/// the map, so updates of different pairs do not contend.
pub struct ResponseTable {
    counts: CHashMap<StoredKey, u64>,
}

impl View for ResponseTable {
    type V = Map<KeyView, u64>;

    closed spec fn view(&self) -> Map<KeyView, u64> {
        counts_of(self.counts)
    }
}

/// The count a table holds for a pair; zero for a pair never seen.
pub open spec fn count_in(m: Map<KeyView, u64>, k: KeyView) -> nat {
    if m.contains_key(k) { m[k] as nat } else { 0 }
}

/// The table after one more sighting of a pair.
pub open spec fn recorded(m: Map<KeyView, u64>, k: KeyView) -> Map<KeyView, u64> {
    m.insert(k, bumped(lookup(m, k)))
}

/// The table after sightings of the pairs in order.
pub open spec fn recorded_all(m: Map<KeyView, u64>, events: Seq<KeyView>) -> Map<KeyView, u64>
    decreases events.len(),
{
    if events.len() == 0 {
        m
    } else {
        recorded(recorded_all(m, events.drop_last()), events.last())
    }
}

impl ResponseTable {
    /// An empty table.
    pub fn new() -> (r: ResponseTable)
        ensures
            r@ == no_counts(),
    {
        ResponseTable { counts: new_counts() }
    }

    /// Counts one more sighting of `msg` from `endpoint`, creating the pair on
    /// its first sighting. No other pair changes.
    pub fn record(&mut self, endpoint: Endpoint, msg: &str)
        ensures
            final(self)@ == recorded(old(self)@, key_of(endpoint, msg@)),
    {
        let key: StoredKey = (endpoint.ip, endpoint.port, endpoint.v6, msg.to_owned());
        upsert_count(&mut self.counts, key);
    }

    /// How many times `msg` was read from `endpoint`.
    pub fn count(&self, endpoint: Endpoint, msg: &str) -> (r: u64)
        ensures
            r as nat == count_in(self@, key_of(endpoint, msg@)),
    {
        let key: StoredKey = (endpoint.ip, endpoint.port, endpoint.v6, msg.to_owned());
        match get_count(&self.counts, &key) {
            Some(n) => n,
            None => 0,
        }
    }

    /// A copy of the table as it stands.
    pub fn snapshot(&self) -> (r: ResponseTable)
        ensures
            r@ == self@,
    {
        ResponseTable { counts: clone_counts(&self.counts) }
    }
}

/// A sighting changes the count of its own pair only: that count grows by one
/// (unless it is already at the largest value) and every other count stays.
pub proof fn lemma_record_counts(m: Map<KeyView, u64>, k: KeyView, other: KeyView)
    ensures
        count_in(m, k) < u64::MAX ==> count_in(recorded(m, k), k) == count_in(m, k) + 1,
        count_in(m, k) == u64::MAX ==> count_in(recorded(m, k), k) == count_in(m, k),
        other != k ==> count_in(recorded(m, k), other) == count_in(m, other),
{
}

/// Starting from an empty table, the count of each pair after any sequence of
/// sightings is the number of sightings of that pair in the sequence. It
/// depends on the sightings as a multiset only, so every interleaving of
/// concurrent callers ends with the same counts, and none is lost or doubled.
pub proof fn lemma_counts_are_number_of_calls(events: Seq<KeyView>, k: KeyView)
    requires
        events.len() <= u64::MAX,
    ensures
        count_in(recorded_all(no_counts(), events), k) == events.to_multiset().count(k),
    decreases events.len(),
{
    broadcast use vstd::seq_lib::group_to_multiset_ensures;
    if events.len() > 0 {
        let prefix = events.drop_last();
        lemma_counts_are_number_of_calls(prefix, k);
        assert(prefix.push(events.last()) == events);
        let before = recorded_all(no_counts(), prefix);
        lemma_count_bounded(prefix, k);
        lemma_record_counts(before, events.last(), k);
    }
}

proof fn lemma_count_bounded(events: Seq<KeyView>, k: KeyView)
    ensures
        events.to_multiset().count(k) <= events.len(),
    decreases events.len(),
{
    broadcast use vstd::seq_lib::group_to_multiset_ensures;
    if events.len() > 0 {
        let prefix = events.drop_last();
        lemma_count_bounded(prefix, k);
        assert(prefix.push(events.last()) == events);
    }
}

} // verus!
