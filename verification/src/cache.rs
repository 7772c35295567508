//! The segments of the videos that were looked up last.
//!
//! A video that is played again within a session needs no second request.
//! The cache keeps the segments of a bounded number of videos and drops the
//! one that was used least recently when it is full.  Only segments are kept:
//! a lookup that failed or found nothing is repeated the next time.

use vstd::prelude::*;
use crate::lookup::{copy_segments, outcome_view, LookupError};
use crate::segment::{Segment, Segments};

verus! {

/// How many videos the cache of a session keeps.
pub const CACHE_SIZE: usize = 10;

/// The largest number of entries a store is made for.
pub const MAX_STORE_SIZE: usize = 0x1_0000;

#[verifier::external_type_specification]
#[verifier::external_body]
#[verifier::reject_recursive_types(K)]
#[verifier::reject_recursive_types(V)]
#[verifier::reject_recursive_types(S)]
pub struct ExLruCache<K, V, S>(cached::LruCache<K, V, S>);

/// One entry of the store: the identifier of a video and its segments.
pub type Entry = (Seq<char>, Seq<Segment>);

/// The entries of a store, the one used most recently first.
pub uninterp spec fn store_entries(store: cached::LruCache<String, Segments>) -> Seq<Entry>;

/// The number of entries the store was made for.
pub uninterp spec fn store_capacity(store: cached::LruCache<String, Segments>) -> nat;

/// The place of the first entry for `key`, if there is one.
pub open spec fn position(entries: Seq<Entry>, key: Seq<char>) -> Option<int>
    decreases entries.len(),
{
    if entries.len() == 0 {
        None
    } else if entries.first().0 == key {
        Some(0int)
    } else {
        match position(entries.drop_first(), key) {
            Some(i) => Some(i + 1),
            None => None,
        }
    }
}

/// The entries after the entry for `key` was used: it moves to the front.
pub open spec fn touched(entries: Seq<Entry>, key: Seq<char>) -> Seq<Entry> {
    match position(entries, key) {
        Some(i) => seq![entries[i]] + entries.remove(i),
        None => entries,
    }
}

/// The entries after `value` was stored for `key` in a store made for
/// `capacity` entries.  The new entry stands at the front and replaces an
/// older one for the same key.  What then exceeds the capacity is dropped from
/// the back, where the entries used least recently are.
pub open spec fn stored(entries: Seq<Entry>, capacity: nat, key: Seq<char>, value: Seq<Segment>) -> Seq<
    Entry,
> {
    match position(entries, key) {
        Some(i) => seq![(key, value)] + entries.remove(i),
        None => {
            let grown = seq![(key, value)] + entries;
            if grown.len() > capacity {
                grown.take(capacity as int)
            } else {
                grown
            }
        },
    }
}

/// The segments of an optional result, as a sequence.
pub open spec fn segments_of(found: Option<Segments>) -> Option<Seq<Segment>> {
    match found {
        Some(segments) => Some(segments@),
        None => None,
    }
}

/// The segments kept for `key`, if any.
pub open spec fn kept(entries: Seq<Entry>, key: Seq<char>) -> Option<Seq<Segment>> {
    match position(entries, key) {
        Some(i) => Some(entries[i].1),
        None => None,
    }
}

/// What was stored for a key is what is kept for it, and a store that was
/// not over its capacity is not over it afterwards.
pub proof fn lemma_stored_is_kept(
    entries: Seq<Entry>,
    capacity: nat,
    key: Seq<char>,
    value: Seq<Segment>,
)
    requires
        capacity > 0,
    ensures
        kept(stored(entries, capacity, key, value), key) == Some(value),
        entries.len() <= capacity ==> stored(entries, capacity, key, value).len() <= capacity,
{
    let after = stored(entries, capacity, key, value);
    assert(after.len() > 0 && after.first() == (key, value)) by {
        match position(entries, key) {
            Some(i) => {},
            None => {},
        }
    }
    lemma_position_in_range(entries, key);
}

/// The place that [`position`] gives lies in the sequence, holds the key, and
/// no earlier place does; it gives none only if no place holds the key.
pub proof fn lemma_position_in_range(entries: Seq<Entry>, key: Seq<char>)
    ensures
        match position(entries, key) {
            Some(i) => 0 <= i < entries.len() && entries[i].0 == key && forall|j: int|
                0 <= j < i ==> (#[trigger] entries[j]).0 != key,
            None => forall|j: int| 0 <= j < entries.len() ==> (#[trigger] entries[j]).0 != key,
        },
    decreases entries.len(),
{
    if entries.len() > 0 {
        let rest = entries.drop_first();
        lemma_position_in_range(rest, key);
        assert(forall|j: int| 0 <= j < rest.len() ==> rest[j] == entries[j + 1]);
        if entries.first().0 != key {
            match position(rest, key) {
                Some(i) => {
                    assert forall|j: int| 0 <= j < i + 1 implies (#[trigger] entries[j]).0
                        != key by {
                        if j > 0 {
                            assert(rest[j - 1] == entries[j]);
                        }
                    }
                },
                None => {
                    assert forall|j: int| 0 <= j < entries.len() implies (#[trigger] entries[j]).0
                        != key by {
                        if j > 0 {
                            assert(rest[j - 1] == entries[j]);
                        }
                    }
                },
            }
        }
    }
}

/// A lookup changes the order of the entries and nothing else: as many are
/// kept as before, and the key that was looked up is kept with the same
/// segments.
pub proof fn lemma_touched_keeps(entries: Seq<Entry>, key: Seq<char>)
    ensures
        touched(entries, key).len() == entries.len(),
        kept(touched(entries, key), key) == kept(entries, key),
{
    lemma_position_in_range(entries, key);
    match position(entries, key) {
        Some(i) => {
            let after = touched(entries, key);
            assert(after.first() == entries[i]);
        },
        None => {},
    }
}

/// An empty store for `size` entries.
///
/// Trusted: calls `cached::LruCache::new`, which panics for a size of zero
/// and where memory for `size` entries cannot be had; the bound keeps clear
/// of both.
#[verifier::external_body]
fn store_new(size: usize) -> (store: cached::LruCache<String, Segments>)
    requires
        0 < size <= MAX_STORE_SIZE,
    ensures
        store_entries(store) == Seq::<Entry>::empty(),
        store_capacity(store) == size,
{
    cached::LruCache::new(size)
}

/// Looks `key` up and counts the lookup as a use of its entry.
///
/// Trusted: calls `cached::Cached::cache_get` on the store and copies what it
/// found.  As the source shows, an entry that is found moves to the front of
/// the order of use, and a miss changes nothing.
#[verifier::external_body]
fn store_get(store: &mut cached::LruCache<String, Segments>, key: &String) -> (found: Option<
    Segments,
>)
    ensures
        segments_of(found) == kept(store_entries(*old(store)), key@),
        store_entries(*final(store)) == touched(store_entries(*old(store)), key@),
        store_capacity(*final(store)) == store_capacity(*old(store)),
{
    cached::Cached::cache_get(store, key).cloned()
}

/// Stores `value` for `key`.
///
/// Trusted: calls `cached::Cached::cache_set` on the store.  As the source
/// shows, the entry is written at the front of the order of use, in place of
/// an older one for the same key, and entries are then dropped from the back
/// until no more than the capacity are left.
#[verifier::external_body]
fn store_set(store: &mut cached::LruCache<String, Segments>, key: String, value: Segments)
    ensures
        store_entries(*final(store)) == stored(
            store_entries(*old(store)),
            store_capacity(*old(store)),
            key@,
            value@,
        ),
        store_capacity(*final(store)) == store_capacity(*old(store)),
{
    cached::Cached::cache_set(store, key, value);
}

/// The cache as a mathematical value.
pub struct CacheView {
    /// The entries, the one used most recently first.
    pub entries: Seq<Entry>,
    /// The number of entries the cache keeps at most.
    pub capacity: nat,
}

impl CacheView {
    /// The cache after `key` was looked up.
    pub open spec fn looked_up(self, key: Seq<char>) -> CacheView {
        CacheView { entries: touched(self.entries, key), ..self }
    }

    /// The cache after the result of a lookup of `key` was recorded.  Only
    /// segments are kept: an error and an empty result change nothing.
    pub open spec fn recorded(self, key: Seq<char>, outcome: Result<Seq<Segment>, LookupError>) -> CacheView {
        match outcome {
            Ok(segments) => if segments.len() > 0 {
                CacheView { entries: stored(self.entries, self.capacity, key, segments), ..self }
            } else {
                self
            },
            Err(_) => self,
        }
    }
}

/// The cache never grows over its capacity: neither a lookup nor the record
/// of a result makes a cache that was within its capacity exceed it.  What is
/// recorded with segments is found by the next lookup, and what is recorded
/// without leaves the cache as it was.
pub proof fn lemma_cache_is_bounded(
    cache: CacheView,
    key: Seq<char>,
    outcome: Result<Seq<Segment>, LookupError>,
)
    requires
        cache.capacity > 0,
        cache.entries.len() <= cache.capacity,
    ensures
        cache.looked_up(key).entries.len() <= cache.capacity,
        cache.recorded(key, outcome).entries.len() <= cache.capacity,
        match outcome {
            Ok(segments) if segments.len() > 0 => kept(cache.recorded(key, outcome).entries, key)
                == Some(segments),
            _ => cache.recorded(key, outcome) == cache,
        },
{
    lemma_touched_keeps(cache.entries, key);
    match outcome {
        Ok(segments) => {
            lemma_stored_is_kept(cache.entries, cache.capacity, key, segments);
        },
        Err(_) => {},
    }
}

/// The segments of the videos that were looked up last.
pub struct ResultCache {
    store: cached::LruCache<String, Segments>,
}

impl View for ResultCache {
    type V = CacheView;

    closed spec fn view(&self) -> CacheView {
        CacheView { entries: store_entries(self.store), capacity: store_capacity(self.store) }
    }
}

impl ResultCache {
    /// An empty cache for [`CACHE_SIZE`] videos.
    pub fn new() -> (cache: Self)
        ensures
            cache@ == (CacheView { entries: Seq::empty(), capacity: CACHE_SIZE as nat }),
    {
        ResultCache { store: store_new(CACHE_SIZE) }
    }

    /// The segments kept for the video `id`, if any.  Being asked for counts
    /// as a use of the entry.
    pub fn get(&mut self, id: &str) -> (found: Option<Segments>)
        ensures
            segments_of(found) == kept(old(self)@.entries, id@),
            final(self)@ == old(self)@.looked_up(id@),
    {
        let key = String::from_str(id);
        store_get(&mut self.store, &key)
    }

    /// Records the result of a lookup of the video `id`.
    pub fn record(&mut self, id: &str, outcome: &Result<Segments, LookupError>)
        ensures
            final(self)@ == old(self)@.recorded(id@, outcome_view(*outcome)),
    {
        match outcome {
            Ok(segments) => {
                if segments.len() > 0 {
                    let value = copy_segments(segments);
                    store_set(&mut self.store, String::from_str(id), value);
                }
            },
            Err(_) => {},
        }
    }
}

} // verus!
