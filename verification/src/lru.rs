//! The contract under which the cache of results uses `hashlru::Cache`.
//!
//! A cache is described by two things: the entries it holds, ordered from the
//! least recently used to the most recently used one, and the capacity it was
//! made with. The definitions below say what it means to find, use and drop
//! an entry in such a sequence. The functions are direct calls into
//! `hashlru`, each with a statement of what the call does; those statements
//! are taken on trust, from the source of `hashlru`.

use crate::models::WebGWASResult;
use std::hash::Hash;
use vstd::prelude::*;

verus! {

#[verifier::external_type_specification]
#[verifier::external_body]
#[verifier::reject_recursive_types(K)]
#[verifier::reject_recursive_types(V)]
pub struct ExCache<K: Eq + Hash, V>(hashlru::Cache<K, V>);

/// What a cache holds: its entries, each a key with its value, from the least
/// recently used to the most recently used one.
pub uninterp spec fn lru_entries(cache: hashlru::Cache<u128, WebGWASResult>) -> Seq<
    (u128, WebGWASResult),
>;

/// The number of entries that a cache was made to hold.
pub uninterp spec fn lru_capacity(cache: hashlru::Cache<u128, WebGWASResult>) -> usize;

/// The largest capacity a cache is created with. `hashlru` allocates its hash
/// table for the whole capacity when the cache is made. The table has as many
/// buckets as the next power of two above eight sevenths of the capacity,
/// each bucket takes two pointers and a control byte, and the size of the
/// whole must stay below `isize::MAX`, or making the table panics. Every
/// capacity up to this one keeps the size below that, with pointers of four
/// bytes as with pointers of eight. Whether the machine has the memory is
/// another matter.
pub const MAX_CAPACITY: usize = usize::MAX / 128;

/// No key occurs twice.
pub open spec fn keys_distinct(entries: Seq<(u128, WebGWASResult)>) -> bool {
    forall|i: int, j: int|
        0 <= i < j < entries.len() ==> (#[trigger] entries[i]).0 != (#[trigger] entries[j]).0
}

/// Some entry has the key `key`.
pub open spec fn holds_key(entries: Seq<(u128, WebGWASResult)>, key: u128) -> bool {
    exists|i: int| 0 <= i < entries.len() && (#[trigger] entries[i]).0 == key
}

/// Where the entry with the key `key` stands, if there is one.
pub open spec fn position(entries: Seq<(u128, WebGWASResult)>, key: u128) -> int {
    choose|i: int| 0 <= i < entries.len() && (#[trigger] entries[i]).0 == key
}

/// The entries after the one with the key `key` has been used: it has moved
/// to the most recently used end, and the others keep their order.
pub open spec fn touched(entries: Seq<(u128, WebGWASResult)>, key: u128) -> Seq<
    (u128, WebGWASResult),
> {
    if holds_key(entries, key) {
        let i = position(entries, key);
        entries.remove(i).push(entries[i])
    } else {
        entries
    }
}

/// The entries without the one that has the key `key`.
pub open spec fn without(entries: Seq<(u128, WebGWASResult)>, key: u128) -> Seq<
    (u128, WebGWASResult),
> {
    if holds_key(entries, key) {
        entries.remove(position(entries, key))
    } else {
        entries
    }
}

/// The value stored under `key`, if there is one.
pub open spec fn value_of(entries: Seq<(u128, WebGWASResult)>, key: u128) -> Option<
    WebGWASResult,
> {
    if holds_key(entries, key) {
        Some(entries[position(entries, key)].1)
    } else {
        None
    }
}

/// `hashlru::Cache::new`: an empty cache of the given capacity.
#[verifier::external_body]
pub(crate) fn lru_new(capacity: usize) -> (cache: hashlru::Cache<u128, WebGWASResult>)
    requires
        capacity <= MAX_CAPACITY,
    ensures
        lru_entries(cache) == Seq::<(u128, WebGWASResult)>::empty(),
        lru_capacity(cache) == capacity,
{
    hashlru::Cache::new(capacity)
}

/// `hashlru::Cache::len`: the number of entries held.
#[verifier::external_body]
pub(crate) fn lru_len(cache: &hashlru::Cache<u128, WebGWASResult>) -> (n: usize)
    ensures
        n == lru_entries(*cache).len(),
{
    cache.len()
}

/// `hashlru::Cache::capacity`: the capacity the cache was made with.
#[verifier::external_body]
pub(crate) fn lru_capacity_of(cache: &hashlru::Cache<u128, WebGWASResult>) -> (n: usize)
    ensures
        n == lru_capacity(*cache),
{
    cache.capacity()
}

/// `hashlru::Cache::is_full`: whether the cache holds as many entries as its
/// capacity allows, or more.
#[verifier::external_body]
pub(crate) fn lru_is_full(cache: &hashlru::Cache<u128, WebGWASResult>) -> (full: bool)
    ensures
        full == (lru_entries(*cache).len() >= lru_capacity(*cache)),
{
    cache.is_full()
}

/// `hashlru::Cache::contains_key`: whether an entry has this key. The order
/// of the entries is not touched.
#[verifier::external_body]
pub(crate) fn lru_contains_key(cache: &hashlru::Cache<u128, WebGWASResult>, key: u128) -> (held:
    bool)
    ensures
        held == holds_key(lru_entries(*cache), key),
{
    cache.contains_key(&key)
}

/// `hashlru::Cache::lru`: the key of the least recently used entry, or
/// nothing when the cache is empty.
#[verifier::external_body]
pub(crate) fn lru_oldest_key(cache: &hashlru::Cache<u128, WebGWASResult>) -> (key: Option<u128>)
    ensures
        key == if lru_entries(*cache).len() > 0 {
            Some(lru_entries(*cache)[0].0)
        } else {
            None
        },
{
    cache.lru().copied()
}

/// `hashlru::Cache::remove`: takes the entry with this key out and returns
/// its value; the other entries keep their order. Without such an entry
/// nothing changes.
#[verifier::external_body]
pub(crate) fn lru_remove(cache: &mut hashlru::Cache<u128, WebGWASResult>, key: u128) -> (value:
    Option<WebGWASResult>)
    requires
        keys_distinct(lru_entries(*old(cache))),
    ensures
        value == value_of(lru_entries(*old(cache)), key),
        lru_entries(*final(cache)) == without(lru_entries(*old(cache)), key),
        lru_capacity(*final(cache)) == lru_capacity(*old(cache)),
{
    cache.remove(&key)
}

/// `hashlru::Cache::insert`, called where there is room for the key: the
/// entry becomes the most recently used one. If the key was held already, its
/// old entry is gone and the old value is returned.
#[verifier::external_body]
pub(crate) fn lru_insert(
    cache: &mut hashlru::Cache<u128, WebGWASResult>,
    key: u128,
    value: WebGWASResult,
) -> (previous: Option<WebGWASResult>)
    requires
        keys_distinct(lru_entries(*old(cache))),
        lru_capacity(*old(cache)) > 0,
        holds_key(lru_entries(*old(cache)), key) || lru_entries(*old(cache)).len()
            < lru_capacity(*old(cache)),
    ensures
        previous == value_of(lru_entries(*old(cache)), key),
        lru_entries(*final(cache)) == without(lru_entries(*old(cache)), key).push((key, value)),
        lru_capacity(*final(cache)) == lru_capacity(*old(cache)),
{
    cache.insert(key, value)
}

/// `hashlru::Cache::get`: the value stored under the key, whose entry becomes
/// the most recently used one. Without such an entry nothing changes.
#[verifier::external_body]
pub(crate) fn lru_get(cache: &mut hashlru::Cache<u128, WebGWASResult>, key: u128) -> (value:
    Option<&WebGWASResult>)
    requires
        keys_distinct(lru_entries(*old(cache))),
    ensures
        value == match value_of(lru_entries(*old(cache)), key) {
            Some(v) => Some(&v),
            None => None,
        },
        lru_entries(*final(cache)) == touched(lru_entries(*old(cache)), key),
        lru_capacity(*final(cache)) == lru_capacity(*old(cache)),
{
    cache.get(&key)
}

/// `hashlru::Cache::get_mut`: a handle on the value stored under the key,
/// whose entry becomes the most recently used one and ends up holding
/// whatever is written through the handle. Without such an entry nothing
/// changes.
#[verifier::external_body]
pub(crate) fn lru_get_mut(cache: &mut hashlru::Cache<u128, WebGWASResult>, key: u128) -> (value:
    Option<&mut WebGWASResult>)
    requires
        keys_distinct(lru_entries(*old(cache))),
    ensures
        value.is_some() == holds_key(lru_entries(*old(cache)), key),
        value.is_some() ==> Some(*value.unwrap()) == value_of(lru_entries(*old(cache)), key),
        value.is_some() ==> lru_entries(*final(cache)) == without(
            lru_entries(*old(cache)),
            key,
        ).push((key, *final(value.unwrap()))),
        value.is_none() ==> lru_entries(*final(cache)) == lru_entries(*old(cache)),
        lru_capacity(*final(cache)) == lru_capacity(*old(cache)),
{
    cache.get_mut(&key)
}

} // verus!
