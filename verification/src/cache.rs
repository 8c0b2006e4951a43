//! A keyed store with time-to-live expiry and least-recently-used eviction.
//!
//! Time is a count of nanoseconds on a monotonic clock. Every operation
//! exists in two forms: one that is told the time (`*_at`), whose contract
//! pins the outcome, and one that reads the cache's own clock and behaves as
//! the first form does at the time it read.

use crate::clock::duration_nanos;
use crate::clock::NANOS_PER_SEC;
use crate::datadog::models::DashboardSummary;
use crate::datadog::models::Event;
use crate::datadog::models::Monitor;
use crate::error::DatadogError;
use crate::text::join;
use crate::text::lower_hex;
use crate::text::lower_hex_u64;
use std::collections::hash_map::DefaultHasher;
use std::hash::Hash;
use std::hash::Hasher;
use std::time::Duration;
use std::time::Instant;
use vstd::prelude::*;
use vstd::std_specs::hash::DefaultHasherAdditionalSpecFns;
use vstd::string::*;

verus! {

/// One cached value with the time it was stored and the time it was last
/// read.
pub struct CacheEntry<T> {
    data: T,
    created_at: u128,
    last_accessed: u128,
}

/// The mathematical value of a [`CacheEntry`].
pub struct CacheEntryView<T> {
    pub data: T,
    pub created_at: nat,
    pub last_accessed: nat,
}

impl<T> CacheEntryView<T> {
    /// A value stored at `now` and not read since.
    pub open spec fn fresh(data: T, now: nat) -> Self {
        CacheEntryView { data, created_at: now, last_accessed: now }
    }

    /// The entry's age at `now`; a clock reading from before the entry was
    /// stored counts as age zero.
    pub open spec fn age_at(self, now: nat) -> nat {
        if now >= self.created_at {
            (now - self.created_at) as nat
        } else {
            0
        }
    }

    /// The entry after a read at `now`.
    pub open spec fn touched(self, now: nat) -> Self {
        CacheEntryView { last_accessed: now, ..self }
    }
}

impl<T> View for CacheEntry<T> {
    type V = CacheEntryView<T>;

    closed spec fn view(&self) -> CacheEntryView<T> {
        CacheEntryView {
            data: self.data,
            created_at: self.created_at as nat,
            last_accessed: self.last_accessed as nat,
        }
    }
}

impl<T: Clone> CacheEntry<T> {
    /// Stores `data` at time `now`.
    pub fn new(data: T, now: u128) -> (entry: Self)
        ensures
            entry@ == CacheEntryView::fresh(data, now as nat),
    {
        CacheEntry { data, created_at: now, last_accessed: now }
    }

    /// Reads the value at time `now`: the read is recorded and a copy of
    /// the value returned.
    pub fn access(&mut self, now: u128) -> (copy: T)
        ensures
            final(self)@ == old(self)@.touched(now as nat),
            cloned(old(self)@.data, copy),
    {
        self.last_accessed = now;
        self.data.clone()
    }

    /// The entry's age at time `now`.
    pub fn age(&self, now: u128) -> (age: u128)
        ensures
            age == self@.age_at(now as nat),
    {
        if now >= self.created_at {
            now - self.created_at
        } else {
            0
        }
    }
}

/// A key with its entry.
struct Slot<T> {
    key: String,
    entry: CacheEntry<T>,
}

/// A store from text keys to values of type `T`, bounded in size and in the
/// age of what it serves.
///
/// The entries are kept as a list in which no key occurs twice, and are
/// found by comparing keys. What the store maps each key to is then proved
/// from the list alone, with no assumption about how texts hash.
pub struct GenericCache<T: Clone> {
    slots: Vec<Slot<T>>,
    ttl: u128,
    max_entries: usize,
    origin: Instant,
}

/// The mathematical value of a [`GenericCache`]: its entries by key, and
/// the two limits fixed at construction.
pub struct CacheView<T> {
    pub entries: Map<Seq<char>, CacheEntryView<T>>,
    pub ttl: nat,
    pub max_entries: nat,
}

spec fn key_at<T>(slots: Seq<Slot<T>>, i: int) -> Seq<char> {
    slots[i].key@
}

spec fn has_key<T>(slots: Seq<Slot<T>>, key: Seq<char>) -> bool {
    exists|i: int| 0 <= i < slots.len() && #[trigger] key_at(slots, i) == key
}

spec fn index_of<T>(slots: Seq<Slot<T>>, key: Seq<char>) -> int {
    choose|i: int| 0 <= i < slots.len() && #[trigger] key_at(slots, i) == key
}

spec fn distinct_keys<T>(slots: Seq<Slot<T>>) -> bool {
    forall|i: int, j: int|
        0 <= i < j < slots.len() ==> #[trigger] key_at(slots, i) != #[trigger] key_at(slots, j)
}

spec fn entries_of<T>(slots: Seq<Slot<T>>) -> Map<Seq<char>, CacheEntryView<T>> {
    Map::new(|key: Seq<char>| has_key(slots, key), |key: Seq<char>| slots[index_of(slots, key)].entry@)
}

proof fn lemma_lookup<T>(slots: Seq<Slot<T>>, i: int)
    requires
        distinct_keys(slots),
        0 <= i < slots.len(),
    ensures
        entries_of(slots).dom().contains(key_at(slots, i)),
        entries_of(slots)[key_at(slots, i)] == slots[i].entry@,
{
    let key = key_at(slots, i);
    assert(has_key(slots, key));
    let j = index_of(slots, key);
    assert(0 <= j < slots.len() && key_at(slots, j) == key);
    if j < i {
        assert(key_at(slots, j) != key_at(slots, i));
    } else if i < j {
        assert(key_at(slots, i) != key_at(slots, j));
    }
}

proof fn lemma_absent<T>(slots: Seq<Slot<T>>, key: Seq<char>)
    ensures
        entries_of(slots).dom().contains(key) <==> has_key(slots, key),
{
}

proof fn lemma_push<T>(slots: Seq<Slot<T>>, slot: Slot<T>)
    requires
        distinct_keys(slots),
        !has_key(slots, slot.key@),
    ensures
        distinct_keys(slots.push(slot)),
        entries_of(slots.push(slot)) == entries_of(slots).insert(slot.key@, slot.entry@),
{
    let after = slots.push(slot);
    assert forall|i: int, j: int| 0 <= i < j < after.len() implies #[trigger] key_at(after, i)
        != #[trigger] key_at(after, j) by {
        if j < slots.len() {
            assert(key_at(slots, i) != key_at(slots, j));
        } else {
            assert(key_at(slots, i) == key_at(after, i));
        }
    }
    let expected = entries_of(slots).insert(slot.key@, slot.entry@);
    assert forall|key: Seq<char>| #[trigger]
        entries_of(after).dom().contains(key) implies expected.dom().contains(key) && expected[key]
        == entries_of(after)[key] by {
        let i = index_of(after, key);
        assert(0 <= i < after.len() && key_at(after, i) == key);
        lemma_lookup(after, i);
        if i < slots.len() {
            assert(key_at(slots, i) == key);
            lemma_lookup(slots, i);
        }
    }
    assert forall|key: Seq<char>| #[trigger]
        expected.dom().contains(key) implies entries_of(after).dom().contains(key) by {
        if key == slot.key@ {
            assert(key_at(after, slots.len() as int) == key);
        } else {
            let i = index_of(slots, key);
            assert(0 <= i < slots.len() && key_at(slots, i) == key);
            assert(key_at(after, i) == key);
        }
    }
    assert(entries_of(after).dom() =~= expected.dom());
    assert(entries_of(after) =~= expected);
}

proof fn lemma_remove<T>(slots: Seq<Slot<T>>, at: int)
    requires
        distinct_keys(slots),
        0 <= at < slots.len(),
    ensures
        distinct_keys(slots.remove(at)),
        entries_of(slots.remove(at)) == entries_of(slots).remove(key_at(slots, at)),
{
    let after = slots.remove(at);
    assert forall|i: int| 0 <= i < after.len() implies #[trigger] key_at(after, i) == key_at(
        slots,
        if i < at {
            i
        } else {
            i + 1
        },
    ) by {}
    assert forall|i: int, j: int| 0 <= i < j < after.len() implies #[trigger] key_at(after, i)
        != #[trigger] key_at(after, j) by {
        let si = if i < at {
            i
        } else {
            i + 1
        };
        let sj = if j < at {
            j
        } else {
            j + 1
        };
        assert(key_at(slots, si) != key_at(slots, sj));
    }
    let expected = entries_of(slots).remove(key_at(slots, at));
    assert forall|key: Seq<char>| #[trigger]
        entries_of(after).dom().contains(key) implies expected.dom().contains(key) && expected[key]
        == entries_of(after)[key] by {
        let i = index_of(after, key);
        assert(0 <= i < after.len() && key_at(after, i) == key);
        lemma_lookup(after, i);
        let si = if i < at {
            i
        } else {
            i + 1
        };
        assert(key_at(slots, si) == key);
        lemma_lookup(slots, si);
        if si < at {
            assert(key_at(slots, si) != key_at(slots, at));
        } else {
            assert(key_at(slots, at) != key_at(slots, si));
        }
    }
    assert forall|key: Seq<char>| #[trigger]
        expected.dom().contains(key) implies entries_of(after).dom().contains(key) by {
        let i = index_of(slots, key);
        assert(0 <= i < slots.len() && key_at(slots, i) == key);
        let ai = if i < at {
            i
        } else {
            i - 1
        };
        assert(key_at(after, ai) == key);
    }
    assert(entries_of(after).dom() =~= expected.dom());
    assert(entries_of(after) =~= expected);
}

proof fn lemma_count<T>(slots: Seq<Slot<T>>)
    requires
        distinct_keys(slots),
    ensures
        entries_of(slots).dom().finite(),
        entries_of(slots).dom().len() == slots.len(),
    decreases slots.len(),
{
    if slots.len() == 0 {
        assert(entries_of(slots).dom() =~= Set::empty());
    } else {
        let last = slots.last();
        let rest = slots.drop_last();
        assert forall|i: int, j: int| 0 <= i < j < rest.len() implies #[trigger] key_at(rest, i)
            != #[trigger] key_at(rest, j) by {
            assert(key_at(slots, i) != key_at(slots, j));
        }
        if has_key(rest, last.key@) {
            let i = index_of(rest, last.key@);
            assert(0 <= i < rest.len() && key_at(rest, i) == last.key@);
            assert(key_at(slots, i) != key_at(slots, slots.len() - 1));
        }
        lemma_count(rest);
        lemma_push(rest, last);
        assert(rest.push(last) =~= slots);
    }
}

impl<T: Clone> View for GenericCache<T> {
    type V = CacheView<T>;

    closed spec fn view(&self) -> CacheView<T> {
        CacheView {
            entries: entries_of(self.slots@),
            ttl: self.ttl as nat,
            max_entries: self.max_entries as nat,
        }
    }
}

/// The position of `key` among the slots.
fn find<T>(slots: &Vec<Slot<T>>, key: &str) -> (found: Option<usize>)
    ensures
        match found {
            Some(i) => i < slots.len() && key_at(slots@, i as int) == key@,
            None => !has_key(slots@, key@),
        },
{
    let mut i: usize = 0;
    while i < slots.len()
        invariant
            i <= slots.len(),
            forall|j: int| 0 <= j < i ==> #[trigger] key_at(slots@, j) != key@,
        decreases slots.len() - i,
    {
        if slots[i].key.as_str().eq(key) {
            return Some(i);
        }
        i = i + 1;
    }
    None
}

impl<T: Clone> CacheView<T> {
    /// What a read of `key` at time `now` does: a missing key changes
    /// nothing; an entry whose age has reached the time to live is removed
    /// and not served; any other entry is served as a copy and marked as
    /// read at `now`.
    pub open spec fn get_post(self, key: Seq<char>, now: nat, after: Self, found: Option<T>) -> bool {
        &&& after.ttl == self.ttl
        &&& after.max_entries == self.max_entries
        &&& if !self.entries.dom().contains(key) {
            &&& after.entries == self.entries
            &&& found is None
        } else if self.entries[key].age_at(now) >= self.ttl {
            &&& after.entries == self.entries.remove(key)
            &&& found is None
        } else {
            &&& after.entries == self.entries.insert(key, self.entries[key].touched(now))
            &&& found is Some
            &&& cloned(self.entries[key].data, found->0)
        }
    }
}

impl<T: Clone> CacheView<T> {
    /// Whether `victim` is an entry that no other entry was read before.
    pub open spec fn is_least_recent(self, victim: Seq<char>) -> bool {
        &&& self.entries.dom().contains(victim)
        &&& forall|other: Seq<char>| #[trigger]
            self.entries.dom().contains(other) ==> self.entries[victim].last_accessed
                <= self.entries[other].last_accessed
    }

    /// Whether storing `key` needs room to be made first: the key is new
    /// and the cache holds as many entries as it may.
    pub open spec fn must_evict(self, key: Seq<char>) -> bool {
        &&& !self.entries.dom().contains(key)
        &&& self.entries.dom().len() >= self.max_entries
        &&& self.entries.dom().len() > 0
    }

    /// What storing `data` under `key` at time `now` does: the key maps to
    /// a fresh entry; where room had to be made, one least recently read
    /// entry is gone, and nothing else has changed.
    pub open spec fn set_post(self, key: Seq<char>, data: T, now: nat, after: Self) -> bool {
        &&& after.ttl == self.ttl
        &&& after.max_entries == self.max_entries
        &&& if self.must_evict(key) {
            exists|victim: Seq<char>|
                #![trigger self.is_least_recent(victim)]
                self.is_least_recent(victim) && after.entries == self.entries.remove(
                    victim,
                ).insert(key, CacheEntryView::fresh(data, now))
        } else {
            after.entries == self.entries.insert(key, CacheEntryView::fresh(data, now))
        }
    }

    /// The entries that a sweep at time `now` keeps: those whose age does
    /// not exceed the time to live.
    pub open spec fn kept_at(self, now: nat) -> Map<Seq<char>, CacheEntryView<T>> {
        Map::new(
            |key: Seq<char>|
                self.entries.dom().contains(key) && self.entries[key].age_at(now) <= self.ttl,
            |key: Seq<char>| self.entries[key],
        )
    }

    /// What a sweep at time `now` does: exactly the entries older than the
    /// time to live are gone, and `removed` counts them.
    pub open spec fn sweep_post(self, now: nat, after: Self, removed: nat) -> bool {
        &&& after.ttl == self.ttl
        &&& after.max_entries == self.max_entries
        &&& after.entries == self.kept_at(now)
        &&& removed == self.entries.dom().len() - after.entries.dom().len()
    }

    /// What holds of every cache: finitely many entries, and no more of
    /// them than the capacity allows. A cache of capacity zero still holds
    /// the entry stored last.
    pub open spec fn valid(self) -> bool {
        &&& self.entries.dom().finite()
        &&& (self.entries.dom().len() <= self.max_entries || self.entries.dom().len() <= 1)
    }

    /// What a read of `key` at `probed_at` does that fetches the value on a
    /// miss: a hit is served as by a plain read; on a miss `outcome` is what
    /// the fetch produced, and a fetched value is stored at `stored_at` as a
    /// copy.
    pub open spec fn fetch_post(
        self,
        key: Seq<char>,
        probed_at: nat,
        stored_at: nat,
        after: Self,
        outcome: Result<T, DatadogError>,
    ) -> bool {
        if self.hits(key, probed_at) {
            &&& outcome is Ok
            &&& self.get_post(key, probed_at, after, Some(outcome->Ok_0))
        } else {
            exists|probed: Self|
                #![trigger self.get_post(key, probed_at, probed, None)]
                {
                    &&& self.get_post(key, probed_at, probed, None)
                    &&& match outcome {
                        Ok(data) => exists|copy: T|
                            #![trigger probed.set_post(key, copy, stored_at, after)]
                            cloned(data, copy) && probed.set_post(key, copy, stored_at, after),
                        Err(_) => after == probed,
                    }
                }
        }
    }

    /// Whether a read of `key` at time `now` is served from the cache.
    pub open spec fn hits(self, key: Seq<char>, now: nat) -> bool {
        self.entries.dom().contains(key) && self.entries[key].age_at(now) < self.ttl
    }

    /// What a read of `key` does whatever the clock shows: it is a read at
    /// some time.
    pub open spec fn read(self, key: Seq<char>, after: Self, found: Option<T>) -> bool {
        exists|now: nat| self.get_post(key, now, after, found)
    }

    /// What storing `data` under `key` does whatever the clock shows: it
    /// is stored at some time.
    pub open spec fn stored(self, key: Seq<char>, data: T, after: Self) -> bool {
        exists|now: nat| self.set_post(key, data, now, after)
    }

    /// What a fetching read of `key` does whatever the clock shows: it
    /// probes at some time and, on a miss, stores at some time what was
    /// fetched. `produced` says whether `outcome` is what the fetch
    /// produced, which is owed on a miss.
    pub open spec fn fetched(
        self,
        key: Seq<char>,
        after: Self,
        outcome: Result<T, DatadogError>,
        produced: bool,
    ) -> bool {
        exists|probed_at: nat, stored_at: nat|
            {
                &&& #[trigger] self.fetch_post(key, probed_at, stored_at, after, outcome)
                &&& !self.hits(key, probed_at) ==> produced
            }
    }
}

/// A value stored under a key and read back before it has reached the time
/// to live comes back: the read finds a copy of what was stored.
pub proof fn lemma_round_trip<T: Clone>(
    before: CacheView<T>,
    key: Seq<char>,
    data: T,
    stored_at: nat,
    stored: CacheView<T>,
    read_at: nat,
    after: CacheView<T>,
    found: Option<T>,
)
    requires
        before.set_post(key, data, stored_at, stored),
        stored.get_post(key, read_at, after, found),
        CacheEntryView::fresh(data, stored_at).age_at(read_at) < before.ttl,
    ensures
        found is Some,
        cloned(data, found->0),
{
}

/// A value read once its age has reached the time to live is not served:
/// the read finds nothing and the entry is gone.
pub proof fn lemma_expiry<T: Clone>(
    before: CacheView<T>,
    key: Seq<char>,
    data: T,
    stored_at: nat,
    stored: CacheView<T>,
    read_at: nat,
    after: CacheView<T>,
    found: Option<T>,
)
    requires
        before.set_post(key, data, stored_at, stored),
        stored.get_post(key, read_at, after, found),
        read_at >= stored_at + before.ttl,
    ensures
        found is None,
        !after.entries.dom().contains(key),
{
}

/// Storing never leaves a cache of capacity one or more over its capacity;
/// and where a new key meets a full cache, what leaves is an entry that no
/// other entry was read before, and only that one.
pub proof fn lemma_capacity<T: Clone>(
    before: CacheView<T>,
    key: Seq<char>,
    data: T,
    now: nat,
    after: CacheView<T>,
)
    requires
        before.valid(),
        before.max_entries >= 1,
        before.set_post(key, data, now, after),
    ensures
        after.entries.dom().finite(),
        after.entries.dom().len() <= before.max_entries,
        before.must_evict(key) ==> exists|victim: Seq<char>|
            #![trigger before.is_least_recent(victim)]
            {
                &&& before.is_least_recent(victim)
                &&& after.entries.dom() == before.entries.dom().remove(victim).insert(key)
                &&& !after.entries.dom().contains(victim)
            },
{
    if before.must_evict(key) {
        let victim = choose|victim: Seq<char>|
            #![trigger before.is_least_recent(victim)]
            before.is_least_recent(victim) && after.entries == before.entries.remove(victim).insert(
                key,
                CacheEntryView::fresh(data, now),
            );
        assert(after.entries.dom() =~= before.entries.dom().remove(victim).insert(key));
    } else {
        assert(after.entries.dom() =~= before.entries.dom().insert(key));
    }
}

/// Storing under one key leaves every other entry as it was, unless room
/// had to be made.
pub proof fn lemma_other_keys_kept<T: Clone>(
    before: CacheView<T>,
    key: Seq<char>,
    data: T,
    now: nat,
    after: CacheView<T>,
    other: Seq<char>,
)
    requires
        before.set_post(key, data, now, after),
        !before.must_evict(key),
        other != key,
    ensures
        after.entries.dom().contains(other) == before.entries.dom().contains(other),
        before.entries.dom().contains(other) ==> after.entries[other] == before.entries[other],
{
}

/// A value fetched on a miss is cached: a later read that comes before the
/// stored copy has reached the time to live finds a copy of it.
pub proof fn lemma_fetched_value_is_cached<T: Clone>(
    before: CacheView<T>,
    key: Seq<char>,
    probed_at: nat,
    stored_at: nat,
    fetched: CacheView<T>,
    data: T,
    read_at: nat,
    after: CacheView<T>,
    found: Option<T>,
)
    requires
        !before.hits(key, probed_at),
        before.fetch_post(key, probed_at, stored_at, fetched, Ok(data)),
        fetched.get_post(key, read_at, after, found),
        CacheEntryView::fresh(data, stored_at).age_at(read_at) < before.ttl,
    ensures
        found is Some,
        exists|copy: T| cloned(data, copy) && #[trigger] cloned(copy, found->0),
{
    let probed = choose|probed: CacheView<T>|
        #![trigger before.get_post(key, probed_at, probed, None)]
        {
            &&& before.get_post(key, probed_at, probed, None)
            &&& exists|copy: T|
                #![trigger probed.set_post(key, copy, stored_at, fetched)]
                cloned(data, copy) && probed.set_post(key, copy, stored_at, fetched)
        };
    let copy = choose|copy: T|
        #![trigger probed.set_post(key, copy, stored_at, fetched)]
        cloned(data, copy) && probed.set_post(key, copy, stored_at, fetched);
    assert(fetched.entries[key] == CacheEntryView::fresh(copy, stored_at));
    assert(cloned(copy, found->0));
}

/// One store operation: a key, the value stored under it, and the time.
pub struct Write<T> {
    pub key: Seq<char>,
    pub data: T,
    pub at: nat,
}

/// Whether `states` are the successive values of a cache on which `writes`
/// are performed one after another.
pub open spec fn performed<T: Clone>(states: Seq<CacheView<T>>, writes: Seq<Write<T>>) -> bool {
    &&& states.len() == writes.len() + 1
    &&& forall|i: int|
        0 <= i < writes.len() ==> (#[trigger] states[i]).set_post(
            writes[i].key,
            writes[i].data,
            writes[i].at,
            states[i + 1],
        )
}

/// Whether no two of the writes name the same key.
pub open spec fn distinct_writes<T>(writes: Seq<Write<T>>) -> bool {
    forall|i: int, j: int|
        0 <= i < j < writes.len() ==> (#[trigger] writes[i]).key != (#[trigger] writes[j]).key
}

proof fn lemma_writes_prefix<T: Clone>(states: Seq<CacheView<T>>, writes: Seq<Write<T>>, done: int)
    requires
        performed(states, writes),
        distinct_writes(writes),
        states[0].valid(),
        states[0].entries.dom().len() + writes.len() <= states[0].max_entries,
        0 <= done <= writes.len(),
    ensures
        states[done].entries.dom().finite(),
        states[done].entries.dom().len() <= states[0].entries.dom().len() + done,
        states[done].max_entries == states[0].max_entries,
        states[done].ttl == states[0].ttl,
        forall|i: int|
            0 <= i < done ==> states[done].entries.dom().contains((#[trigger] writes[i]).key)
                && states[done].entries[writes[i].key] == CacheEntryView::fresh(
                writes[i].data,
                writes[i].at,
            ),
    decreases done,
{
    if done > 0 {
        lemma_writes_prefix(states, writes, done - 1);
        let before = states[done - 1];
        let write = writes[done - 1];
        assert(before.set_post(write.key, write.data, write.at, states[done]));
        assert(!before.must_evict(write.key));
        assert(states[done].entries.dom() =~= before.entries.dom().insert(write.key));
        assert forall|i: int| 0 <= i < done implies states[done].entries.dom().contains(
            (#[trigger] writes[i]).key,
        ) && states[done].entries[writes[i].key] == CacheEntryView::fresh(
            writes[i].data,
            writes[i].at,
        ) by {
            if i < done - 1 {
                assert(writes[i].key != writes[done - 1].key);
            }
        }
    }
}

/// No write is lost: when writers store distinct keys in a cache that has
/// room for all of them, then in whatever order the writes take effect,
/// every one of the keys ends up holding the value written under it.
pub proof fn lemma_no_lost_writes<T: Clone>(states: Seq<CacheView<T>>, writes: Seq<Write<T>>)
    requires
        performed(states, writes),
        distinct_writes(writes),
        states[0].valid(),
        states[0].entries.dom().len() + writes.len() <= states[0].max_entries,
    ensures
        forall|i: int|
            0 <= i < writes.len() ==> states.last().entries.dom().contains(
                (#[trigger] writes[i]).key,
            ) && states.last().entries[writes[i].key] == CacheEntryView::fresh(
                writes[i].data,
                writes[i].at,
            ),
{
    lemma_writes_prefix(states, writes, writes.len() as int);
}

impl<T: Clone> GenericCache<T> {
    /// Distinct keys, and no more entries than the capacity allows. A cache
    /// of capacity zero still holds the entry stored last.
    #[verifier::type_invariant]
    spec fn well_formed(self) -> bool {
        &&& distinct_keys(self.slots@)
        &&& (self.slots@.len() <= self.max_entries || self.slots@.len() <= 1)
    }

    /// An empty cache whose entries live for `ttl` and which holds at most
    /// `max_entries` of them.
    pub fn new(ttl: Duration, max_entries: usize) -> (cache: Self)
        ensures
            cache@.entries == Map::<Seq<char>, CacheEntryView<T>>::empty(),
            cache@.ttl == duration_nanos(ttl),
            cache@.max_entries == max_entries,
            cache@.valid(),
    {
        let cache = GenericCache {
            slots: Vec::new(),
            ttl: ttl.as_nanos(),
            max_entries,
            origin: Instant::now(),
        };
        proof {
            assert(entries_of(cache.slots@) =~= Map::<Seq<char>, CacheEntryView<T>>::empty());
            lemma_count(cache.slots@);
        }
        cache
    }

    /// The cache's clock: nanoseconds since the cache was made, as the
    /// monotonic clock measures them. Nothing is promised of a reading;
    /// what is done with one is stated by the `_at` form of each
    /// operation, for every reading.
    fn now(&self) -> u128 {
        self.origin.elapsed().as_nanos()
    }

    /// Reads `key` at time `now`.
    pub fn get_at(&mut self, key: &str, now: u128) -> (found: Option<T>)
        ensures
            old(self)@.get_post(key@, now as nat, final(self)@, found),
            final(self)@.valid(),
    {
        proof {
            use_type_invariant(&*self);
        }
        let mut slots: Vec<Slot<T>> = Vec::new();
        std::mem::swap(&mut slots, &mut self.slots);
        let ghost before = slots@;
        let found = match find(&slots, key) {
            None => None,
            Some(i) => {
                proof {
                    lemma_lookup(before, i as int);
                }
                let mut slot = slots.remove(i);
                proof {
                    lemma_remove(before, i as int);
                }
                if slot.entry.age(now) < self.ttl {
                    let copy = slot.entry.access(now);
                    proof {
                        assert(!has_key(slots@, slot.key@)) by {
                            lemma_absent(slots@, slot.key@);
                        }
                        lemma_push(slots@, slot);
                        assert(before.remove(i as int).push(slot) == slots@.push(slot));
                        assert(entries_of(slots@.push(slot)) =~= entries_of(before).insert(
                            key@,
                            entries_of(before)[key@].touched(now as nat),
                        ));
                    }
                    slots.push(slot);
                    Some(copy)
                } else {
                    None
                }
            },
        };
        self.slots = slots;
        proof {
            use_type_invariant(&*self);
            lemma_count(self.slots@);
        }
        found
    }

    /// The number of entries held, expired ones included.
    pub fn len(&self) -> (count: usize)
        ensures
            self@.entries.dom().finite(),
            count == self@.entries.dom().len(),
            count <= self@.max_entries || count <= 1,
    {
        proof {
            use_type_invariant(self);
            lemma_count(self.slots@);
        }
        self.slots.len()
    }

    /// Removes one slot that no other slot was read before; an empty list
    /// stays empty.
    fn evict_lru(slots: &mut Vec<Slot<T>>) -> (victim: Ghost<int>)
        requires
            distinct_keys(old(slots)@),
        ensures
            old(slots)@.len() == 0 ==> final(slots)@ == old(slots)@,
            old(slots)@.len() > 0 ==> {
                &&& 0 <= victim@ < old(slots)@.len()
                &&& final(slots)@ == old(slots)@.remove(victim@)
                &&& forall|j: int|
                    0 <= j < old(slots)@.len() ==> old(slots)@[victim@].entry.last_accessed
                        <= (#[trigger] old(slots)@[j]).entry.last_accessed
            },
    {
        if slots.len() == 0 {
            return Ghost(0);
        }
        let mut oldest: usize = 0;
        let mut i: usize = 1;
        while i < slots.len()
            invariant
                1 <= i <= slots.len(),
                oldest < i,
                forall|j: int|
                    0 <= j < i ==> slots@[oldest as int].entry.last_accessed <= (
                    #[trigger] slots@[j]).entry.last_accessed,
            decreases slots.len() - i,
        {
            if slots[i].entry.last_accessed < slots[oldest].entry.last_accessed {
                oldest = i;
            }
            i = i + 1;
        }
        slots.remove(oldest);
        Ghost(oldest as int)
    }

    /// Stores `data` under `key` at time `now`.
    pub fn set_at(&mut self, key: String, data: T, now: u128)
        ensures
            old(self)@.set_post(key@, data, now as nat, final(self)@),
            final(self)@.valid(),
    {
        proof {
            use_type_invariant(&*self);
        }
        let mut slots: Vec<Slot<T>> = Vec::new();
        std::mem::swap(&mut slots, &mut self.slots);
        let ghost before = slots@;
        let ghost fresh = CacheEntryView::fresh(data, now as nat);
        proof {
            lemma_count(before);
            lemma_absent(before, key@);
        }
        match find(&slots, key.as_str()) {
            Some(i) => {
                slots.remove(i);
                proof {
                    lemma_remove(before, i as int);
                    lemma_absent(slots@, key@);
                    assert(entries_of(before).remove(key@).insert(key@, fresh) =~= entries_of(
                        before,
                    ).insert(key@, fresh));
                }
            },
            None => {
                if slots.len() >= self.max_entries {
                    let victim = Self::evict_lru(&mut slots);
                    proof {
                        if before.len() > 0 {
                            lemma_remove(before, victim@);
                            lemma_lookup(before, victim@);
                            let name = key_at(before, victim@);
                            assert(old(self)@.is_least_recent(name)) by {
                                assert forall|other: Seq<char>| #[trigger]
                                    entries_of(before).dom().contains(other) implies entries_of(
                                    before,
                                )[name].last_accessed <= entries_of(before)[other].last_accessed by {
                                    let j = index_of(before, other);
                                    assert(0 <= j < before.len() && key_at(before, j) == other);
                                    lemma_lookup(before, j);
                                    assert(before[victim@].entry.last_accessed
                                        <= before[j].entry.last_accessed);
                                }
                            }
                            lemma_absent(slots@, key@);
                        }
                    }
                }
            },
        }
        let slot = Slot { key, entry: CacheEntry::new(data, now) };
        proof {
            lemma_push(slots@, slot);
        }
        slots.push(slot);
        self.slots = slots;
        proof {
            use_type_invariant(&*self);
            lemma_count(self.slots@);
        }
    }

    /// Stores `data` under `key` at the time the cache's clock shows.
    pub fn set(&mut self, key: String, data: T)
        ensures
            old(self)@.stored(key@, data, final(self)@),
            final(self)@.valid(),
    {
        let now = self.now();
        self.set_at(key, data, now);
        assert(old(self)@.set_post(key@, data, now as nat, self@));
    }

    /// Removes every entry older than the time to live at time `now` and
    /// reports how many were removed.
    pub fn cleanup_expired_at(&mut self, now: u128) -> (removed: usize)
        ensures
            old(self)@.sweep_post(now as nat, final(self)@, removed as nat),
            final(self)@.valid(),
    {
        proof {
            use_type_invariant(&*self);
        }
        let mut slots: Vec<Slot<T>> = Vec::new();
        std::mem::swap(&mut slots, &mut self.slots);
        let ghost before = slots@;
        let ghost view = old(self)@;
        proof {
            lemma_count(before);
        }
        let ttl = self.ttl;
        let mut removed: usize = 0;
        let mut i: usize = 0;
        while i < slots.len()
            invariant
                i <= slots.len(),
                distinct_keys(slots@),
                view.entries == entries_of(before),
                view.ttl == ttl,
                removed + slots.len() == before.len() <= usize::MAX,
                entries_of(slots@).submap_of(view.entries),
                forall|key: Seq<char>| #[trigger]
                    view.kept_at(now as nat).dom().contains(key) ==> entries_of(slots@).dom().contains(
                        key,
                    ),
                forall|j: int|
                    0 <= j < i ==> (#[trigger] slots@[j]).entry@.age_at(now as nat) <= ttl,
            decreases slots.len() - i,
        {
            if slots[i].entry.age(now) > ttl {
                proof {
                    lemma_lookup(slots@, i as int);
                    lemma_remove(slots@, i as int);
                }
                slots.remove(i);
                removed = removed + 1;
            } else {
                i = i + 1;
            }
        }
        proof {
            lemma_count(slots@);
            assert(entries_of(slots@) =~= view.kept_at(now as nat)) by {
                assert forall|key: Seq<char>| #[trigger]
                    entries_of(slots@).dom().contains(key) implies view.kept_at(
                    now as nat,
                ).dom().contains(key) by {
                    let j = index_of(slots@, key);
                    assert(0 <= j < slots@.len() && key_at(slots@, j) == key);
                    lemma_lookup(slots@, j);
                    assert(slots@[j].entry@.age_at(now as nat) <= ttl);
                }
            }
        }
        self.slots = slots;
        proof {
            use_type_invariant(&*self);
        }
        removed
    }

    /// Removes every entry older than the time to live at the time the
    /// cache's clock shows, and reports how many were removed.
    pub fn cleanup_expired(&mut self) -> (removed: usize)
        ensures
            exists|now: nat| old(self)@.sweep_post(now, final(self)@, removed as nat),
            final(self)@.valid(),
    {
        let now = self.now();
        let removed = self.cleanup_expired_at(now);
        assert(old(self)@.sweep_post(now as nat, self@, removed as nat));
        removed
    }

    /// The course of a fetching read. A fetched value is stored at
    /// `stored_at`, or, where that is `None`, at the time that the cache's
    /// clock shows once the fetch is done. The time of storing is handed
    /// back beside the outcome.
    fn fetch_through<F: FnOnce() -> Result<T, DatadogError>>(
        &mut self,
        key: &str,
        probed_at: u128,
        fetch_fn: F,
        stored_at: Option<u128>,
    ) -> (done: (Result<T, DatadogError>, u128))
        requires
            !old(self)@.hits(key@, probed_at as nat) ==> fetch_fn.requires(()),
        ensures
            old(self)@.fetch_post(key@, probed_at as nat, done.1 as nat, final(self)@, done.0),
            !old(self)@.hits(key@, probed_at as nat) ==> fetch_fn.ensures((), done.0),
            stored_at matches Some(at) ==> done.1 == at,
            final(self)@.valid(),
    {
        let fixed = match stored_at {
            Some(at) => at,
            None => 0,
        };
        if let Some(cached) = self.get_at(key, probed_at) {
            return (Ok(cached), fixed);
        }
        let ghost probed = self@;
        match fetch_fn() {
            Ok(data) => {
                let copy = data.clone();
                let at = match stored_at {
                    Some(at) => at,
                    None => self.now(),
                };
                self.set_at(key.to_string(), copy, at);
                proof {
                    assert(probed.set_post(key@, copy, at as nat, self@));
                }
                (Ok(data), at)
            },
            Err(failure) => (Err(failure), fixed),
        }
    }

    /// Reads `key` at time `probed_at`; on a miss calls `fetch_fn`, stores
    /// a copy of what it produced at time `stored_at`, and returns it. A
    /// failed fetch stores nothing. On a hit `fetch_fn` is not called, so it
    /// need not even be callable.
    pub fn get_or_fetch_at<F: FnOnce() -> Result<T, DatadogError>>(
        &mut self,
        key: &str,
        probed_at: u128,
        fetch_fn: F,
        stored_at: u128,
    ) -> (outcome: Result<T, DatadogError>)
        requires
            !old(self)@.hits(key@, probed_at as nat) ==> fetch_fn.requires(()),
        ensures
            old(self)@.fetch_post(key@, probed_at as nat, stored_at as nat, final(self)@, outcome),
            !old(self)@.hits(key@, probed_at as nat) ==> fetch_fn.ensures((), outcome),
            final(self)@.valid(),
    {
        self.fetch_through(key, probed_at, fetch_fn, Some(stored_at)).0
    }

    /// Reads `key` at the time the cache's clock shows; on a miss calls
    /// `fetch_fn` and stores a copy of what it produced at the time the
    /// clock shows then.
    pub fn get_or_fetch<F: FnOnce() -> Result<T, DatadogError>>(&mut self, key: &str, fetch_fn: F) -> (outcome:
        Result<T, DatadogError>)
        requires
            fetch_fn.requires(()),
        ensures
            old(self)@.fetched(key@, final(self)@, outcome, fetch_fn.ensures((), outcome)),
            final(self)@.valid(),
    {
        let probed_at = self.now();
        let done = self.fetch_through(key, probed_at, fetch_fn, None);
        proof {
            assert(old(self)@.fetch_post(key@, probed_at as nat, done.1 as nat, self@, done.0));
        }
        done.0
    }

    /// Reads `key` at the time the cache's clock shows.
    pub fn get(&mut self, key: &str) -> (found: Option<T>)
        ensures
            old(self)@.read(key@, final(self)@, found),
            final(self)@.valid(),
    {
        let now = self.now();
        let found = self.get_at(key, now);
        assert(old(self)@.get_post(key@, now as nat, self@, found));
        found
    }
}

/// How many entries each cache of a [`DataCache`] may hold.
pub const MAX_ENTRIES_PER_KIND: usize = 100;

/// Three independent caches, one per kind of resource, that share one time
/// to live.
pub struct DataCache {
    dashboards: GenericCache<Vec<DashboardSummary>>,
    monitors: GenericCache<Vec<Monitor>>,
    events: GenericCache<Vec<Event>>,
}

/// The mathematical value of a [`DataCache`].
pub struct DataCacheView {
    pub dashboards: CacheView<Vec<DashboardSummary>>,
    pub monitors: CacheView<Vec<Monitor>>,
    pub events: CacheView<Vec<Event>>,
}

impl View for DataCache {
    type V = DataCacheView;

    closed spec fn view(&self) -> DataCacheView {
        DataCacheView {
            dashboards: self.dashboards@,
            monitors: self.monitors@,
            events: self.events@,
        }
    }
}

impl DataCacheView {
    /// What holds of every cache set: each cache is valid and has the
    /// capacity that every kind is given.
    pub open spec fn valid(self) -> bool {
        &&& self.dashboards.valid()
        &&& self.dashboards.max_entries == MAX_ENTRIES_PER_KIND
        &&& self.monitors.valid()
        &&& self.monitors.max_entries == MAX_ENTRIES_PER_KIND
        &&& self.events.valid()
        &&& self.events.max_entries == MAX_ENTRIES_PER_KIND
    }

    /// What a sweep of all three caches does: each cache is swept at some
    /// time of its own, and `total` counts what the three sweeps removed.
    pub open spec fn sweep_all_post(self, after: Self, total: nat) -> bool {
        exists|at: (nat, nat, nat), removed: (nat, nat, nat)|
            {
                &&& #[trigger] self.swept(at, removed, after)
                &&& total == removed.0 + removed.1 + removed.2
            }
    }

    /// The three sweeps of [`Self::sweep_all_post`], with their times and
    /// counts.
    pub open spec fn swept(self, at: (nat, nat, nat), removed: (nat, nat, nat), after: Self) -> bool {
        &&& self.dashboards.sweep_post(at.0, after.dashboards, removed.0)
        &&& self.monitors.sweep_post(at.1, after.monitors, removed.1)
        &&& self.events.sweep_post(at.2, after.events, removed.2)
    }
}

impl DataCache {
    /// Three empty caches whose entries live for `ttl_seconds` seconds.
    pub fn new(ttl_seconds: u64) -> (cache: Self)
        ensures
            cache@.valid(),
            cache@.dashboards.entries == Map::<Seq<char>, CacheEntryView<Vec<DashboardSummary>>>::empty(),
            cache@.monitors.entries == Map::<Seq<char>, CacheEntryView<Vec<Monitor>>>::empty(),
            cache@.events.entries == Map::<Seq<char>, CacheEntryView<Vec<Event>>>::empty(),
            cache@.dashboards.ttl == ttl_seconds * NANOS_PER_SEC,
            cache@.monitors.ttl == ttl_seconds * NANOS_PER_SEC,
            cache@.events.ttl == ttl_seconds * NANOS_PER_SEC,
    {
        let ttl = Duration::from_secs(ttl_seconds);
        DataCache {
            dashboards: GenericCache::new(ttl, MAX_ENTRIES_PER_KIND),
            monitors: GenericCache::new(ttl, MAX_ENTRIES_PER_KIND),
            events: GenericCache::new(ttl, MAX_ENTRIES_PER_KIND),
        }
    }

    /// Stores a dashboard listing at the time the cache's clock shows.
    pub fn set_dashboards(&mut self, key: String, data: Vec<DashboardSummary>)
        ensures
            old(self)@.dashboards.stored(key@, data, final(self)@.dashboards),
            final(self)@.monitors == old(self)@.monitors,
            final(self)@.events == old(self)@.events,
            old(self)@.valid() ==> final(self)@.valid(),
    {
        self.dashboards.set(key, data);
    }

    /// Reads a dashboard listing at the time the cache's clock shows.
    pub fn get_dashboards(&mut self, key: &str) -> (found: Option<Vec<DashboardSummary>>)
        ensures
            old(self)@.dashboards.read(key@, final(self)@.dashboards, found),
            final(self)@.monitors == old(self)@.monitors,
            final(self)@.events == old(self)@.events,
            old(self)@.valid() ==> final(self)@.valid(),
    {
        self.dashboards.get(key)
    }

    /// Reads a dashboard listing, fetching and storing it on a miss.
    pub fn get_or_fetch_dashboards<F: FnOnce() -> Result<Vec<DashboardSummary>, DatadogError>>(
        &mut self,
        key: &str,
        fetch: F,
    ) -> (outcome: Result<Vec<DashboardSummary>, DatadogError>)
        requires
            fetch.requires(()),
        ensures
            old(self)@.dashboards.fetched(key@, final(self)@.dashboards, outcome, fetch.ensures((), outcome)),
            final(self)@.monitors == old(self)@.monitors,
            final(self)@.events == old(self)@.events,
            old(self)@.valid() ==> final(self)@.valid(),
    {
        self.dashboards.get_or_fetch(key, fetch)
    }

    /// Stores a monitor listing at the time the cache's clock shows.
    pub fn set_monitors(&mut self, key: String, data: Vec<Monitor>)
        ensures
            old(self)@.monitors.stored(key@, data, final(self)@.monitors),
            final(self)@.dashboards == old(self)@.dashboards,
            final(self)@.events == old(self)@.events,
            old(self)@.valid() ==> final(self)@.valid(),
    {
        self.monitors.set(key, data);
    }

    /// Reads a monitor listing at the time the cache's clock shows.
    pub fn get_monitors(&mut self, key: &str) -> (found: Option<Vec<Monitor>>)
        ensures
            old(self)@.monitors.read(key@, final(self)@.monitors, found),
            final(self)@.dashboards == old(self)@.dashboards,
            final(self)@.events == old(self)@.events,
            old(self)@.valid() ==> final(self)@.valid(),
    {
        self.monitors.get(key)
    }

    /// Reads a monitor listing, fetching and storing it on a miss.
    pub fn get_or_fetch_monitors<F: FnOnce() -> Result<Vec<Monitor>, DatadogError>>(
        &mut self,
        key: &str,
        fetch: F,
    ) -> (outcome: Result<Vec<Monitor>, DatadogError>)
        requires
            fetch.requires(()),
        ensures
            old(self)@.monitors.fetched(key@, final(self)@.monitors, outcome, fetch.ensures((), outcome)),
            final(self)@.dashboards == old(self)@.dashboards,
            final(self)@.events == old(self)@.events,
            old(self)@.valid() ==> final(self)@.valid(),
    {
        self.monitors.get_or_fetch(key, fetch)
    }

    /// Stores an event listing at the time the cache's clock shows.
    pub fn set_events(&mut self, key: String, data: Vec<Event>)
        ensures
            old(self)@.events.stored(key@, data, final(self)@.events),
            final(self)@.dashboards == old(self)@.dashboards,
            final(self)@.monitors == old(self)@.monitors,
            old(self)@.valid() ==> final(self)@.valid(),
    {
        self.events.set(key, data);
    }

    /// Reads an event listing at the time the cache's clock shows.
    pub fn get_events(&mut self, key: &str) -> (found: Option<Vec<Event>>)
        ensures
            old(self)@.events.read(key@, final(self)@.events, found),
            final(self)@.dashboards == old(self)@.dashboards,
            final(self)@.monitors == old(self)@.monitors,
            old(self)@.valid() ==> final(self)@.valid(),
    {
        self.events.get(key)
    }

    /// Reads an event listing, fetching and storing it on a miss.
    pub fn get_or_fetch_events<F: FnOnce() -> Result<Vec<Event>, DatadogError>>(
        &mut self,
        key: &str,
        fetch: F,
    ) -> (outcome: Result<Vec<Event>, DatadogError>)
        requires
            fetch.requires(()),
        ensures
            old(self)@.events.fetched(key@, final(self)@.events, outcome, fetch.ensures((), outcome)),
            final(self)@.dashboards == old(self)@.dashboards,
            final(self)@.monitors == old(self)@.monitors,
            old(self)@.valid() ==> final(self)@.valid(),
    {
        self.events.get_or_fetch(key, fetch)
    }

    /// Sweeps all three caches and reports how many entries were removed in
    /// all.
    pub fn cleanup_all_expired(&mut self) -> (total: usize)
        requires
            old(self)@.valid(),
        ensures
            old(self)@.sweep_all_post(final(self)@, total as nat),
            final(self)@.valid(),
    {
        let mut total: usize = 0;
        let dashboards = self.dashboards.cleanup_expired();
        let ghost at_0 = choose|now: nat|
            old(self)@.dashboards.sweep_post(now, self@.dashboards, dashboards as nat);
        total = total + dashboards;
        let monitors = self.monitors.cleanup_expired();
        let ghost at_1 = choose|now: nat|
            old(self)@.monitors.sweep_post(now, self@.monitors, monitors as nat);
        total = total + monitors;
        let events = self.events.cleanup_expired();
        let ghost at_2 = choose|now: nat|
            old(self)@.events.sweep_post(now, self@.events, events as nat);
        total = total + events;
        proof {
            assert(old(self)@.swept(
                (at_0, at_1, at_2),
                (dashboards as nat, monitors as nat, events as nat),
                self@,
            ));
        }
        total
    }
}

/// What a hasher has been fed once a text is hashed into it, given what it
/// had been fed before.
pub uninterp spec fn text_writes(written: Seq<Seq<u8>>, text: Seq<char>) -> Seq<Seq<u8>>;

/// `str`'s `Hash::hash` feeds the hasher with data that the text alone
/// determines, after whatever the hasher was fed before.
#[verifier::external_body]
fn hash_text(state: &mut DefaultHasher, text: &str)
    ensures
        final(state)@ == text_writes(old(state)@, text@),
{
    text.hash(state)
}

/// The fingerprint of a query: the 64-bit hash of its parameters, written
/// out as JSON text.
pub open spec fn fingerprint(params_json: Seq<char>) -> u64 {
    DefaultHasher::spec_finish(text_writes(Seq::empty(), params_json))
}

/// The cache key of a request: the endpoint, a colon, and the fingerprint of
/// the parameters in lower-case hexadecimal.
pub open spec fn cache_key(endpoint: Seq<char>, params_json: Seq<char>) -> Seq<char> {
    endpoint + seq![':'] + lower_hex(fingerprint(params_json) as nat)
}

/// Builds the cache key of a request from its endpoint and from its
/// parameters as JSON text. Equal parameters give equal keys.
pub fn create_cache_key(endpoint: &str, params_json: &str) -> (key: String)
    ensures
        key@ == cache_key(endpoint@, params_json@),
{
    let mut hasher = DefaultHasher::new();
    hash_text(&mut hasher, params_json);
    let hash = hasher.finish();
    let mut key = join(endpoint, ":");
    let digits = lower_hex_u64(hash);
    key.append(digits.as_str());
    proof {
        reveal_strlit(":");
        assert(":"@ =~= seq![':']);
    }
    key
}

} // verus!
