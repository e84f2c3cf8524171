//! The caches of looked-up labels: bounded maps from a number to a text
//! whose entries expire.

use moka::sync::Cache;
use std::time::Duration;
use vstd::prelude::*;

verus! {

/// The longest time that an entry may be kept: a thousand years, in seconds.
pub const MAX_SECONDS: u64 = 31_536_000_000;

/// How one cache keeps its entries.
#[derive(Clone, Copy, Debug, PartialEq, Eq, Structural)]
pub struct CachePolicy {
    /// Most entries that are kept.
    pub max_capacity: u64,
    /// Seconds after which an entry that nobody asked for is dropped.
    pub time_to_idle: u64,
    /// Seconds after which an entry is dropped in any case.
    pub time_to_live: u64,
}

impl CachePolicy {
    /// Both times are ones that a cache can be built with.
    pub open spec fn wf(self) -> bool {
        self.time_to_idle <= MAX_SECONDS && self.time_to_live <= MAX_SECONDS
    }
}

/// `moka::sync::Cache`, carried through as it is: nothing inside it is seen.
#[verifier::external_type_specification]
#[verifier::external_body]
#[verifier::reject_recursive_types(K)]
#[verifier::reject_recursive_types(V)]
#[verifier::reject_recursive_types(S)]
pub struct ExCache<K, V, S>(Cache<K, V, S>);

/// What a cache gave for a key.
#[derive(Debug, PartialEq, Eq)]
pub struct Lookup {
    pub value: String,
    /// The value was not in the cache and was computed for this call.
    pub fresh: bool,
}

/// The text that was last handed to a cache for each key, whether or not
/// the cache still keeps it. How long an entry is kept rests on the clock
/// and on the room that is left, and has no name here.
pub uninterp spec fn last_stored(cache: Cache<u64, String>) -> Map<u64, Seq<char>>;

/// The number of entries that a cache was built to hold at most.
pub uninterp spec fn capacity_of(cache: Cache<u64, String>) -> u64;

/// The seconds after which a cache was built to drop an entry that nobody
/// asked for.
pub uninterp spec fn idle_seconds_of(cache: Cache<u64, String>) -> u64;

/// The seconds after which a cache was built to drop an entry in any case.
pub uninterp spec fn live_seconds_of(cache: Cache<u64, String>) -> u64;

/// The policy that a cache was built with.
pub open spec fn policy_of(cache: Cache<u64, String>) -> CachePolicy {
    CachePolicy {
        max_capacity: capacity_of(cache),
        time_to_idle: idle_seconds_of(cache),
        time_to_live: live_seconds_of(cache),
    }
}

/// What was last stored in a cache to which nothing was handed yet.
pub open spec fn nothing_stored() -> Map<u64, Seq<char>> {
    Map::empty()
}

/// What a lookup of `key` does to what was last stored, `before` to
/// `after`: a value that is not fresh is the one last stored for the key,
/// and nothing changes; a fresh value is stored for the key.
pub open spec fn looked_up(
    before: Map<u64, Seq<char>>,
    after: Map<u64, Seq<char>>,
    key: u64,
    found: Lookup,
) -> bool {
    if found.fresh {
        after == before.insert(key, found.value@)
    } else {
        before.contains_key(key) && before[key] == found.value@ && after == before
    }
}

/// `moka::sync::Cache::builder`, with `max_capacity`, `time_to_idle`,
/// `time_to_live` and `build`: an empty cache, to which nothing was handed
/// yet, built with the capacity and the two times of the given policy.
/// `build` panics on a time over a thousand years, so none is admitted.
#[verifier::external_body]
pub(crate) fn build_cache(policy: CachePolicy) -> (cache: Cache<u64, String>)
    requires
        policy.wf(),
    ensures
        last_stored(cache) == nothing_stored(),
        capacity_of(cache) == policy.max_capacity,
        idle_seconds_of(cache) == policy.time_to_idle,
        live_seconds_of(cache) == policy.time_to_live,
{
    Cache::builder()
        .max_capacity(policy.max_capacity)
        .time_to_idle(Duration::from_secs(policy.time_to_idle))
        .time_to_live(Duration::from_secs(policy.time_to_live))
        .build()
}

/// `moka::sync::Cache::entry` with `or_insert_with`: the value kept for
/// `key`, or, where none is kept, the value that `init` returns, which is
/// then handed to the cache. A value that is not fresh is the one that was
/// handed in last for the key: a cache keeps one value for a key and takes
/// another only when that one is gone. A fresh one is what `init` returned.
/// Which of the two happens is left open. What the cache was built with
/// stays as it is. The cache is borrowed for the caller alone, so that no
/// other call comes in between.
#[verifier::external_body]
pub(crate) fn get_or_insert_with<F: FnOnce() -> String>(
    cache: &mut Cache<u64, String>,
    key: u64,
    init: F,
) -> (found: Lookup)
    requires
        init.requires(()),
    ensures
        found.fresh ==> init.ensures((), found.value),
        looked_up(last_stored(*old(cache)), last_stored(*final(cache)), key, found),
        capacity_of(*final(cache)) == capacity_of(*old(cache)),
        idle_seconds_of(*final(cache)) == idle_seconds_of(*old(cache)),
        live_seconds_of(*final(cache)) == live_seconds_of(*old(cache)),
{
    let entry = cache.entry(key).or_insert_with(init);
    let fresh = entry.is_fresh();
    Lookup { value: entry.into_value(), fresh }
}

} // verus!
