//! The bounded cache of finished results.

use crate::lru::{
    holds_key, keys_distinct, lru_capacity, lru_capacity_of, lru_contains_key, lru_entries, lru_get,
    lru_get_mut, lru_insert, lru_is_full, lru_len, lru_new, lru_oldest_key, lru_remove, position,
    touched, value_of, without, MAX_CAPACITY,
};
use crate::errors::AppError;
use crate::models::{WebGWASRequestId, WebGWASResult};
use vstd::prelude::*;

verus! {

/// What the cache holds after `result` has been inserted.
pub open spec fn after_insert(
    entries: Seq<(u128, WebGWASResult)>,
    capacity: usize,
    result: WebGWASResult,
) -> Seq<(u128, WebGWASResult)> {
    let key = result.request_id.value;
    if capacity == 0 {
        entries
    } else if holds_key(entries, key) {
        without(entries, key).push((key, result))
    } else if entries.len() >= capacity {
        entries.drop_first().push((key, result))
    } else {
        entries.push((key, result))
    }
}

/// The result that leaves the cache when `result` is inserted, if one does.
pub open spec fn evicted_by_insert(
    entries: Seq<(u128, WebGWASResult)>,
    capacity: usize,
    result: WebGWASResult,
) -> Option<WebGWASResult> {
    if capacity == 0 {
        Some(result)
    } else if !holds_key(entries, result.request_id.value) && entries.len() >= capacity {
        Some(entries[0].1)
    } else {
        None
    }
}

/// A cache of results by request identifier that holds at most as many
/// entries as its capacity, and gives up the least recently used one when a
/// new one needs the room.
pub struct ResultsCache {
    id_to_result: hashlru::Cache<u128, WebGWASResult>,
}

impl View for ResultsCache {
    type V = Seq<(u128, WebGWASResult)>;

    /// The entries from the least recently used to the most recently used
    /// one, each with the value of the identifier it is kept under.
    closed spec fn view(&self) -> Seq<(u128, WebGWASResult)> {
        lru_entries(self.id_to_result)
    }
}

impl ResultsCache {
    /// The capacity the cache was made with.
    pub closed spec fn spec_capacity(&self) -> usize {
        lru_capacity(self.id_to_result)
    }

    /// No identifier is held twice, and the entries fit the capacity.
    pub open spec fn wf(&self) -> bool {
        &&& keys_distinct(self@)
        &&& self@.len() <= self.spec_capacity()
    }

    /// An empty cache that will hold up to `capacity` results. Its table is
    /// allocated at once, so `capacity` has to be one for which a table can
    /// be laid out.
    pub fn new(capacity: usize) -> (cache: Self)
        requires
            capacity <= MAX_CAPACITY,
        ensures
            cache.wf(),
            cache@ == Seq::<(u128, WebGWASResult)>::empty(),
            cache.spec_capacity() == capacity,
    {
        ResultsCache { id_to_result: lru_new(capacity) }
    }

    /// Files `result` under its request identifier as the most recently used
    /// entry, replacing the entry that identifier had, if any. Where the
    /// identifier is new and the cache is full, the least recently used entry
    /// leaves first and is returned: the caller owes the deletion of its
    /// artifact file, and owes it before the cache is used again. A cache of
    /// capacity zero keeps nothing and hands `result` straight back.
    pub fn insert(&mut self, result: WebGWASResult) -> (evicted: Option<WebGWASResult>)
        requires
            old(self).wf(),
        ensures
            final(self).wf(),
            final(self)@ == after_insert(old(self)@, old(self).spec_capacity(), result),
            evicted == evicted_by_insert(old(self)@, old(self).spec_capacity(), result),
            final(self).spec_capacity() == old(self).spec_capacity(),
    {
        if lru_capacity_of(&self.id_to_result) == 0 {
            return Some(result);
        }
        let key = result.request_id.value;
        let mut evicted: Option<WebGWASResult> = None;
        if lru_is_full(&self.id_to_result) && !lru_contains_key(&self.id_to_result, key) {
            match lru_oldest_key(&self.id_to_result) {
                Some(oldest) => {
                    evicted = lru_remove(&mut self.id_to_result, oldest);
                },
                None => {},
            }
        }
        lru_insert(&mut self.id_to_result, key, result);
        evicted
    }

    /// The result kept under `id`, which becomes the most recently used
    /// entry. Where there is none the cache is left exactly as it was.
    pub fn get(&mut self, id: &WebGWASRequestId) -> (found: Option<&WebGWASResult>)
        requires
            old(self).wf(),
        ensures
            final(self).wf(),
            found == match value_of(old(self)@, id.value) {
                Some(v) => Some(&v),
                None => None,
            },
            final(self)@ == touched(old(self)@, id.value),
            !holds_key(old(self)@, id.value) ==> found.is_none() && final(self)@ == old(self)@,
            final(self).spec_capacity() == old(self).spec_capacity(),
    {
        lru_get(&mut self.id_to_result, id.value)
    }

    /// A handle on the result kept under `id`, which becomes the most
    /// recently used entry and ends up holding whatever the caller writes
    /// through the handle. Where there is none the cache is left exactly as
    /// it was.
    pub fn get_mut(&mut self, id: &WebGWASRequestId) -> (found: Option<&mut WebGWASResult>)
        requires
            old(self).wf(),
        ensures
            final(self).wf(),
            found.is_some() == holds_key(old(self)@, id.value),
            found.is_some() ==> Some(*found.unwrap()) == value_of(old(self)@, id.value),
            found.is_some() ==> final(self)@ == without(old(self)@, id.value).push(
                (id.value, *final(found.unwrap())),
            ),
            found.is_none() ==> final(self)@ == old(self)@,
            final(self).spec_capacity() == old(self).spec_capacity(),
    {
        lru_get_mut(&mut self.id_to_result, id.value)
    }

    /// The number of results held.
    pub fn len(&self) -> (n: usize)
        ensures
            n == self@.len(),
    {
        lru_len(&self.id_to_result)
    }

    /// The capacity the cache was made with.
    pub fn capacity(&self) -> (n: usize)
        ensures
            n == self.spec_capacity(),
    {
        lru_capacity_of(&self.id_to_result)
    }

    /// Whether the next new identifier will push a result out.
    pub fn is_full(&self) -> (full: bool)
        ensures
            full == (self@.len() >= self.spec_capacity()),
    {
        lru_is_full(&self.id_to_result)
    }

    /// Whether a result is kept under `id`. Asking does not count as a use.
    pub fn contains(&self, id: &WebGWASRequestId) -> (held: bool)
        ensures
            held == holds_key(self@, id.value),
    {
        lru_contains_key(&self.id_to_result, id.value)
    }
}

/// The artifact file that has to be deleted for what an insert pushed out.
pub open spec fn artifact_owed(evicted: Option<WebGWASResult>) -> Option<String> {
    match evicted {
        Some(result) => result.local_result_file,
        None => None,
    }
}

/// The artifact file that has to be deleted for what an insert pushed out:
/// that of the evicted result, if a result was evicted and it has one.
pub fn eviction_artifact(evicted: &Option<WebGWASResult>) -> (path: Option<&String>)
    ensures
        path == match artifact_owed(*evicted) {
            Some(p) => Some(&p),
            None => None,
        },
{
    match evicted {
        Some(result) => match &result.local_result_file {
            Some(p) => Some(p),
            None => None,
        },
        None => None,
    }
}

/// What an insert comes to once the deletion it owed was attempted:
/// `deleted` tells whether the artifact is gone. An eviction whose artifact
/// could not be deleted is an error, never a silent success.
pub fn settle_eviction(evicted: &Option<WebGWASResult>, deleted: bool) -> (settled: Result<
    (),
    AppError,
>)
    ensures
        settled == if artifact_owed(*evicted).is_some() && !deleted {
            Err::<(), AppError>(AppError::ResourceExhausted)
        } else {
            Ok::<(), AppError>(())
        },
{
    if eviction_artifact(evicted).is_some() && !deleted {
        Err(AppError::ResourceExhausted)
    } else {
        Ok(())
    }
}

/// What the cache holds after the results of `results` have been inserted
/// one after the other.
pub open spec fn after_inserts(
    entries: Seq<(u128, WebGWASResult)>,
    capacity: usize,
    results: Seq<WebGWASResult>,
) -> Seq<(u128, WebGWASResult)>
    decreases results.len(),
{
    if results.len() == 0 {
        entries
    } else {
        after_insert(after_inserts(entries, capacity, results.drop_last()), capacity, results.last())
    }
}

/// Both keys are held, and the entry of `earlier` was used less recently
/// than that of `later`.
pub open spec fn used_before(entries: Seq<(u128, WebGWASResult)>, earlier: u128, later: u128) -> bool {
    &&& holds_key(entries, earlier)
    &&& holds_key(entries, later)
    &&& position(entries, earlier) < position(entries, later)
}

/// Among entries with distinct keys, the entry at `i` is the one that its key
/// finds.
pub proof fn lemma_key_finds_its_entry(entries: Seq<(u128, WebGWASResult)>, i: int)
    requires
        keys_distinct(entries),
        0 <= i < entries.len(),
    ensures
        holds_key(entries, entries[i].0),
        position(entries, entries[i].0) == i,
        value_of(entries, entries[i].0) == Some(entries[i].1),
{
    assert(holds_key(entries, entries[i].0));
}

/// An insert keeps the cache within its capacity and its keys distinct.
pub proof fn lemma_insert_stays_within_capacity(
    entries: Seq<(u128, WebGWASResult)>,
    capacity: usize,
    result: WebGWASResult,
)
    requires
        keys_distinct(entries),
        entries.len() <= capacity,
    ensures
        keys_distinct(after_insert(entries, capacity, result)),
        after_insert(entries, capacity, result).len() <= capacity,
{
}

/// However many results are inserted, one after the other, the cache never
/// holds more entries than its capacity.
pub proof fn lemma_inserts_stay_within_capacity(
    entries: Seq<(u128, WebGWASResult)>,
    capacity: usize,
    results: Seq<WebGWASResult>,
)
    requires
        keys_distinct(entries),
        entries.len() <= capacity,
    ensures
        keys_distinct(after_inserts(entries, capacity, results)),
        after_inserts(entries, capacity, results).len() <= capacity,
    decreases results.len(),
{
    if results.len() > 0 {
        let before = after_inserts(entries, capacity, results.drop_last());
        lemma_inserts_stay_within_capacity(entries, capacity, results.drop_last());
        lemma_insert_stays_within_capacity(before, capacity, results.last());
    }
}

/// When a new identifier meets a full cache, the entry that leaves is the
/// one that was used least recently: every entry that stays was used after
/// it. The entries that stay keep their order, and the new one is the most
/// recently used.
pub proof fn lemma_overflow_evicts_least_recently_used(
    entries: Seq<(u128, WebGWASResult)>,
    capacity: usize,
    result: WebGWASResult,
)
    requires
        keys_distinct(entries),
        0 < capacity,
        entries.len() == capacity,
        !holds_key(entries, result.request_id.value),
    ensures
        evicted_by_insert(entries, capacity, result) == Some(entries[0].1),
        !holds_key(after_insert(entries, capacity, result), entries[0].0),
        forall|i: int|
            1 <= i < entries.len() ==> used_before(entries, entries[0].0, (#[trigger] entries[i]).0),
        forall|i: int|
            1 <= i < entries.len() ==> after_insert(entries, capacity, result)[i - 1]
                == #[trigger] entries[i],
        after_insert(entries, capacity, result).last() == (result.request_id.value, result),
{
    let after = after_insert(entries, capacity, result);
    lemma_key_finds_its_entry(entries, 0);
    assert forall|i: int| 1 <= i < entries.len() implies used_before(
        entries,
        entries[0].0,
        (#[trigger] entries[i]).0,
    ) by {
        lemma_key_finds_its_entry(entries, i);
    }
    if holds_key(after, entries[0].0) {
        // The key would be that of a later entry, or that of the new result.
        let j = position(after, entries[0].0);
        if j < after.len() - 1 {
            assert(after[j] == entries[j + 1]);
        }
    }
}

/// Using an entry makes it the most recently used one and leaves the order
/// of all the others as it was.
pub proof fn lemma_use_moves_only_the_used(entries: Seq<(u128, WebGWASResult)>, key: u128)
    requires
        keys_distinct(entries),
        holds_key(entries, key),
    ensures
        keys_distinct(touched(entries, key)),
        touched(entries, key).len() == entries.len(),
        touched(entries, key).last() == entries[position(entries, key)],
        forall|a: u128|
            a != key && holds_key(entries, a) ==> #[trigger] used_before(
                touched(entries, key),
                a,
                key,
            ),
        forall|a: u128, b: u128|
            a != key && b != key ==> (#[trigger] used_before(touched(entries, key), a, b)
                <==> used_before(entries, a, b)),
{
    let p = position(entries, key);
    let after = touched(entries, key);
    lemma_key_finds_its_entry(after, after.len() - 1);
    // Every other key is found where it was, or one place earlier if it
    // stood behind the used entry.
    assert forall|a: u128| a != key && holds_key(entries, a) implies holds_key(after, a)
        && position(after, a) == position(entries, a) - if position(entries, a) < p {
        0int
    } else {
        1int
    } by {
        let i = position(entries, a);
        let k = if i < p {
            i
        } else {
            i - 1
        };
        assert(after[k] == entries[i]);
        lemma_key_finds_its_entry(after, k);
    }
    assert forall|a: u128| a != key && holds_key(after, a) implies holds_key(entries, a) by {
        let k = position(after, a);
        assert(after[k] == entries[if k < p {
            k
        } else {
            k + 1
        }]);
    }
}

/// An insert that pushes nothing out keeps every other entry as it was, and
/// the inserted result is found under its identifier.
pub proof fn lemma_insert_keeps_the_others(
    entries: Seq<(u128, WebGWASResult)>,
    capacity: usize,
    result: WebGWASResult,
)
    requires
        keys_distinct(entries),
        entries.len() < capacity || (0 < capacity && holds_key(entries, result.request_id.value)),
    ensures
        evicted_by_insert(entries, capacity, result).is_none(),
        value_of(after_insert(entries, capacity, result), result.request_id.value) == Some(result),
        forall|key: u128|
            key != result.request_id.value ==> #[trigger] value_of(
                after_insert(entries, capacity, result),
                key,
            ) == value_of(entries, key),
        forall|key: u128|
            holds_key(entries, key) ==> #[trigger] holds_key(
                after_insert(entries, capacity, result),
                key,
            ),
{
    let id = result.request_id.value;
    let after = after_insert(entries, capacity, result);
    assert(keys_distinct(after));
    lemma_key_finds_its_entry(after, after.len() - 1);
    assert forall|key: u128| key != id implies #[trigger] value_of(after, key) == value_of(
        entries,
        key,
    ) by {
        // An entry of another key stays, one place earlier if it stood
        // behind the entry that was replaced.
        if holds_key(entries, key) {
            let i = position(entries, key);
            let k = if holds_key(entries, id) && position(entries, id) < i {
                i - 1
            } else {
                i
            };
            assert(after[k] == entries[i]);
            lemma_key_finds_its_entry(after, k);
        }
        if holds_key(after, key) {
            let k = position(after, key);
            let i = if holds_key(entries, id) && position(entries, id) <= k {
                k + 1
            } else {
                k
            };
            assert(after[k] == entries[i]);
        }
    }
    assert forall|key: u128| holds_key(entries, key) implies #[trigger] holds_key(after, key) by {
        if key != id {
            assert(value_of(after, key) == value_of(entries, key));
        }
    }
}

/// Results with distinct identifiers that are inserted one after the other
/// where there is room for all of them are all kept: each one is found under
/// its identifier afterwards.
pub proof fn lemma_inserts_with_room_are_all_kept(
    entries: Seq<(u128, WebGWASResult)>,
    capacity: usize,
    results: Seq<WebGWASResult>,
)
    requires
        keys_distinct(entries),
        entries.len() + results.len() <= capacity,
        forall|i: int, j: int|
            #![trigger results[i], results[j]]
            0 <= i < j < results.len() ==> results[i].request_id != results[j].request_id,
    ensures
        after_inserts(entries, capacity, results).len() <= entries.len() + results.len(),
        forall|i: int|
            0 <= i < results.len() ==> value_of(
                after_inserts(entries, capacity, results),
                (#[trigger] results[i]).request_id.value,
            ) == Some(results[i]),
        forall|key: u128|
            holds_key(entries, key) ==> #[trigger] holds_key(
                after_inserts(entries, capacity, results),
                key,
            ),
    decreases results.len(),
{
    if results.len() > 0 {
        let front = results.drop_last();
        let before = after_inserts(entries, capacity, front);
        let after = after_inserts(entries, capacity, results);
        lemma_inserts_with_room_are_all_kept(entries, capacity, front);
        lemma_inserts_stay_within_capacity(entries, capacity, front);
        lemma_insert_keeps_the_others(before, capacity, results.last());
        assert forall|i: int| 0 <= i < results.len() implies value_of(
            after,
            (#[trigger] results[i]).request_id.value,
        ) == Some(results[i]) by {
            if i < front.len() {
                assert(front[i] == results[i]);
                assert(results[i].request_id != results.last().request_id);
            }
        }
    }
}

/// The path of the artifact file of a result, if it has one.
pub open spec fn artifact_path(result: WebGWASResult) -> Option<Seq<char>> {
    match result.local_result_file {
        Some(path) => Some(path@),
        None => None,
    }
}

/// Results that are kept under different identifiers have different artifact
/// files.
pub open spec fn artifacts_distinct(entries: Seq<(u128, WebGWASResult)>) -> bool {
    forall|i: int, j: int|
        #![trigger entries[i], entries[j]]
        0 <= i < j < entries.len() && entries[i].0 != entries[j].0 && artifact_path(
            entries[i].1,
        ).is_some() ==> artifact_path(entries[i].1) != artifact_path(entries[j].1)
}

/// Where results under different identifiers have different artifact files,
/// the file that an insert leaves to be deleted is the artifact of no result
/// that stays in the cache: deleting it takes no kept result's file away.
/// A result that replaces the one under its own identifier may keep that
/// one's file.
pub proof fn lemma_owed_artifact_belongs_to_no_kept_result(
    entries: Seq<(u128, WebGWASResult)>,
    capacity: usize,
    result: WebGWASResult,
)
    requires
        keys_distinct(entries),
        entries.len() <= capacity,
        artifacts_distinct(entries.push((result.request_id.value, result))),
    ensures
        ({
            let after = after_insert(entries, capacity, result);
            let evicted = evicted_by_insert(entries, capacity, result);
            evicted matches Some(gone) ==> artifact_path(gone).is_none() || forall|k: int|
                0 <= k < after.len() ==> artifact_path((#[trigger] after[k]).1) != artifact_path(
                    gone,
                )
        }),
{
    let all = entries.push((result.request_id.value, result));
    let after = after_insert(entries, capacity, result);
    if capacity > 0 && evicted_by_insert(entries, capacity, result).is_some() {
        // The least recently used entry leaves. What stays are the entries
        // behind it and the new result, each under an identifier of its own.
        assert(all[0] == entries[0]);
        assert forall|k: int| 0 <= k < after.len() implies #[trigger] after[k] == all[k + 1]
            && all[k + 1].0 != all[0].0 by {}
    }
}

} // verus!
