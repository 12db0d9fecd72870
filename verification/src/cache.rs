//! The two stores of bytes, each bounded in size and in the time an entry lives.
//!
//! Every entry is kept under the number of the catalog for which it was made. When a
//! new catalog is installed the number goes up, so that nothing made for an earlier
//! catalog is asked for again, whatever the stores still hold of it.

use std::time::Duration;
use moka::sync::Cache;
use vstd::prelude::*;
use crate::metrics::bump;

verus! {

/// The concurrent cache of the `moka` crate. Nothing inside it is looked into.
#[verifier::external_type_specification]
#[verifier::external_body]
#[verifier::reject_recursive_types(K)]
#[verifier::reject_recursive_types(V)]
#[verifier::reject_recursive_types(S)]
pub struct ExCache<K, V, S>(Cache<K, V, S>);

/// What an entry is asked for by: the identifier of an asset with the width and the
/// height asked for, each as it was asked for or not.
pub type CacheKey = (u32, Option<u32>, Option<u32>);

/// What a store is keyed by: the number of the catalog for which the entry was made,
/// then the identifier, the width and the height.
pub type StoreKey = (u64, u32, Option<u32>, Option<u32>);

/// The store of bytes.
pub type ByteCache = Cache<(u64, u32, Option<u32>, Option<u32>), Vec<u8>>;

/// What has been put into the store since it was made, by key: for each key the bytes
/// put last. The store may have dropped any of it since, so this is what it can still
/// answer with, not what it will.
pub uninterp spec fn stored(cache: ByteCache) -> Map<(u64, u32, Option<u32>, Option<u32>), Seq<u8>>;

/// The number of entries that the store was made to hold at most.
pub uninterp spec fn capacity_of(cache: ByteCache) -> u64;

/// The number of seconds for which the store was made to keep an entry.
pub uninterp spec fn lifetime_of(cache: ByteCache) -> u64;

/// The longest lifetime that a store can be made with: a thousand years of 365 days.
pub const MAX_LIFETIME_SECS: u64 = 31_536_000_000;

/// Calls `Cache::builder`, `CacheBuilder::max_capacity`, `CacheBuilder::time_to_live`
/// and `CacheBuilder::build`: the result is a store with these two bounds into which
/// nothing has been put. `build` panics on a lifetime of more than a thousand years.
#[verifier::external_body]
fn cache_build(max_capacity: u64, ttl_secs: u64) -> (cache: ByteCache)
    requires
        ttl_secs <= MAX_LIFETIME_SECS,
    ensures
        stored(cache) == nothing_stored(),
        capacity_of(cache) == max_capacity,
        lifetime_of(cache) == ttl_secs,
{
    Cache::builder().max_capacity(max_capacity).time_to_live(Duration::from_secs(ttl_secs)).build()
}

/// Calls `Cache::get`: the result is a copy of the bytes put last under `key`, or
/// nothing. It is nothing where nothing was ever put under `key`, and may be nothing
/// wherever the store has dropped the entry.
#[verifier::external_body]
fn cache_get(cache: &ByteCache, key: StoreKey) -> (found: Option<Vec<u8>>)
    ensures
        found matches Some(bytes) ==> stored(*cache).contains_key(key) && stored(*cache)[key]
            == bytes@,
{
    cache.get(&key)
}

/// Calls `Cache::insert`: `bytes` are put under `key`, in place of what was there. The
/// call returns: it gives up only where the store's own queue is closed, which it is
/// not while the store is there.
#[verifier::external_body]
fn cache_insert(cache: &mut ByteCache, key: StoreKey, bytes: Vec<u8>)
    ensures
        stored(*final(cache)) == stored(*old(cache)).insert(key, bytes@),
        capacity_of(*final(cache)) == capacity_of(*old(cache)),
        lifetime_of(*final(cache)) == lifetime_of(*old(cache)),
    no_unwind
{
    cache.insert(key, bytes)
}

/// Calls `Cache::invalidate_all`: the store marks what it holds as gone. Nothing is
/// put by this, so what has been put is as before; which entries the store still
/// answers with after the call is not stated.
#[verifier::external_body]
fn cache_invalidate_all(cache: &ByteCache) {
    cache.invalidate_all()
}

/// Calls `Cache::entry_count`: an estimate of the number of entries, of which nothing
/// is promised.
#[verifier::external_body]
fn cache_entry_count(cache: &ByteCache) -> (n: u64) {
    cache.entry_count()
}

/// Calls `Cache::run_pending_tasks`: the store does the upkeep that it has put off,
/// which is when it drops what is too old or too much. Nothing is put by this.
#[verifier::external_body]
fn cache_settle(cache: &ByteCache) {
    cache.run_pending_tasks()
}

/// A store's record when nothing has been put into it.
pub open spec fn nothing_stored() -> Map<StoreKey, Seq<u8>> {
    Map::empty()
}

/// No entries.
pub open spec fn no_entries() -> Map<CacheKey, Seq<u8>> {
    Map::empty()
}

/// The entries of a store that were made for the catalog of number `version`.
pub open spec fn entries_of(all: Map<StoreKey, Seq<u8>>, version: u64) -> Map<CacheKey, Seq<u8>> {
    Map::new(
        |key: CacheKey| all.contains_key((version, key.0, key.1, key.2)),
        |key: CacheKey| all[(version, key.0, key.1, key.2)],
    )
}

/// Whether no entry of `all` was made for a catalog after that of number `version`.
pub open spec fn none_ahead(all: Map<StoreKey, Seq<u8>>, version: u64) -> bool {
    forall|key: StoreKey| all.contains_key(key) ==> key.0 <= version
}

/// Whether both stores can be made for `max_size` entries that live `ttl_secs` seconds
/// in the store of originals: the doubled numbers are within what a store can be made
/// with.
pub open spec fn bounds_fit(max_size: u64, ttl_secs: u64) -> bool {
    max_size * 2 <= u64::MAX && ttl_secs * 2 <= MAX_LIFETIME_SECS
}

/// What is put for a catalog is put among the entries for that catalog.
pub proof fn lemma_put_among_entries(
    all: Map<StoreKey, Seq<u8>>,
    version: u64,
    key: CacheKey,
    bytes: Seq<u8>,
)
    ensures
        entries_of(all.insert((version, key.0, key.1, key.2), bytes), version) == entries_of(
            all,
            version,
        ).insert(key, bytes),
{
    let put = all.insert((version, key.0, key.1, key.2), bytes);
    assert forall|k: CacheKey| #[trigger]
        entries_of(put, version).contains_key(k) <==> entries_of(all, version).insert(
            key,
            bytes,
        ).contains_key(k) by {
        if k != key {
            assert((version, k.0, k.1, k.2) != (version, key.0, key.1, key.2));
        }
    }
    assert(entries_of(put, version) =~= entries_of(all, version).insert(key, bytes));
}

/// There are no entries for a catalog after the last for which any was made.
pub proof fn lemma_no_entries_ahead(all: Map<StoreKey, Seq<u8>>, version: u64, later: u64)
    requires
        none_ahead(all, version),
        later > version,
    ensures
        entries_of(all, later) == no_entries(),
{
    assert forall|k: CacheKey| !(#[trigger] entries_of(all, later).contains_key(k)) by {
        if all.contains_key((later, k.0, k.1, k.2)) {
            assert((later, k.0, k.1, k.2).0 <= version);
        }
    }
    assert(entries_of(all, later) =~= no_entries());
}

/// How full the two stores are, as they estimate it, and how full they can get.
#[derive(Debug, Clone, Copy, PartialEq, Eq, Structural)]
pub struct CacheUsage {
    pub content_entries: u64,
    pub content_capacity: u64,
    pub resized_entries: u64,
    pub resized_capacity: u64,
}

/// What is known of the two stores.
pub struct StoresView {
    /// The number of the present catalog.
    pub version: u64,
    /// What the store of originals can answer with for the present catalog.
    pub content: Map<CacheKey, Seq<u8>>,
    /// What the store of renderings can answer with for the present catalog.
    pub resized: Map<CacheKey, Seq<u8>>,
    pub content_capacity: u64,
    pub content_lifetime: u64,
    pub resized_capacity: u64,
    pub resized_lifetime: u64,
}

/// The store of originals and the store of renderings, with the number of the present
/// catalog. The store of renderings holds twice as many entries for twice as long.
///
/// No entry of either store was made for a catalog after the present one.
#[derive(Debug)]
pub struct Stores {
    content: ByteCache,
    resized: ByteCache,
    version: u64,
    max_size: u64,
    ttl_secs: u64,
}

impl View for Stores {
    type V = StoresView;

    closed spec fn view(&self) -> StoresView {
        StoresView {
            version: self.version,
            content: entries_of(stored(self.content), self.version),
            resized: entries_of(stored(self.resized), self.version),
            content_capacity: capacity_of(self.content),
            content_lifetime: lifetime_of(self.content),
            resized_capacity: capacity_of(self.resized),
            resized_lifetime: lifetime_of(self.resized),
        }
    }
}

impl Stores {
    #[verifier::type_invariant]
    spec fn nothing_is_ahead(&self) -> bool {
        &&& none_ahead(stored(self.content), self.version)
        &&& none_ahead(stored(self.resized), self.version)
        &&& bounds_fit(self.max_size, self.ttl_secs)
        &&& capacity_of(self.content) == self.max_size
        &&& lifetime_of(self.content) == self.ttl_secs
        &&& capacity_of(self.resized) == self.max_size * 2
        &&& lifetime_of(self.resized) == self.ttl_secs * 2
    }

    /// Two stores into which nothing has been put, before any catalog: the store of
    /// originals for `max_size` entries that live `ttl_secs` seconds.
    pub fn new(max_size: u64, ttl_secs: u64) -> (stores: Stores)
        requires
            bounds_fit(max_size, ttl_secs),
        ensures
            stores@ == (StoresView {
                version: 0,
                content: no_entries(),
                resized: no_entries(),
                content_capacity: max_size,
                content_lifetime: ttl_secs,
                resized_capacity: (max_size * 2) as u64,
                resized_lifetime: (ttl_secs * 2) as u64,
            }),
    {
        let content = cache_build(max_size, ttl_secs);
        let resized = cache_build(max_size * 2, ttl_secs * 2);
        proof {
            assert(entries_of(nothing_stored(), 0) =~= no_entries());
        }
        Stores { content, resized, version: 0, max_size, ttl_secs }
    }

    /// The number of the present catalog.
    pub fn version(&self) -> (version: u64)
        ensures
            version == self@.version,
    {
        self.version
    }

    /// Asks the store of originals for the entry under `key`. What it gives is what was
    /// put last under `key` for the present catalog.
    pub fn content_entry(&self, key: CacheKey) -> (found: Option<Vec<u8>>)
        ensures
            found matches Some(bytes) ==> self@.content.contains_key(key) && self@.content[key]
                == bytes@,
    {
        cache_get(&self.content, (self.version, key.0, key.1, key.2))
    }

    /// Asks the store of renderings for the entry under `key`. What it gives is what
    /// was put last under `key` for the present catalog.
    pub fn resized_entry(&self, key: CacheKey) -> (found: Option<Vec<u8>>)
        ensures
            found matches Some(bytes) ==> self@.resized.contains_key(key) && self@.resized[key]
                == bytes@,
    {
        cache_get(&self.resized, (self.version, key.0, key.1, key.2))
    }

    /// Puts `bytes` under `key` into the store of originals, for the present catalog.
    pub fn put_content(&mut self, key: CacheKey, bytes: Vec<u8>)
        ensures
            final(self)@ == (StoresView {
                content: old(self)@.content.insert(key, bytes@),
                ..old(self)@
            }),
    {
        proof {
            use_type_invariant(&*self);
            lemma_put_among_entries(stored(self.content), self.version, key, bytes@);
        }
        cache_insert(&mut self.content, (self.version, key.0, key.1, key.2), bytes);
    }

    /// Puts `bytes` under `key` into the store of renderings, for the present catalog.
    pub fn put_resized(&mut self, key: CacheKey, bytes: Vec<u8>)
        ensures
            final(self)@ == (StoresView {
                resized: old(self)@.resized.insert(key, bytes@),
                ..old(self)@
            }),
    {
        proof {
            use_type_invariant(&*self);
            lemma_put_among_entries(stored(self.resized), self.version, key, bytes@);
        }
        cache_insert(&mut self.resized, (self.version, key.0, key.1, key.2), bytes);
    }

    /// Begins anew for the next catalog: its number is the next one, and there are no
    /// entries for it in either store. What the stores hold for the catalog before is
    /// marked as gone.
    ///
    /// Where the number cannot go up any more, both stores are made anew instead.
    pub fn start_anew(&mut self)
        ensures
            final(self)@ == (StoresView {
                version: bump(old(self)@.version),
                content: no_entries(),
                resized: no_entries(),
                ..old(self)@
            }),
    {
        proof {
            use_type_invariant(&*self);
        }
        if self.version < u64::MAX {
            cache_invalidate_all(&self.content);
            cache_invalidate_all(&self.resized);
            proof {
                lemma_no_entries_ahead(
                    stored(self.content),
                    self.version,
                    (self.version + 1) as u64,
                );
                lemma_no_entries_ahead(
                    stored(self.resized),
                    self.version,
                    (self.version + 1) as u64,
                );
            }
            self.version = self.version + 1;
        } else {
            proof {
                assert(entries_of(nothing_stored(), self.version) =~= no_entries());
            }
            self.content = cache_build(self.max_size, self.ttl_secs);
            self.resized = cache_build(self.max_size * 2, self.ttl_secs * 2);
        }
    }

    /// The number of entries of the store of originals, as the store estimates it.
    pub fn content_size(&self) -> (n: u64) {
        cache_entry_count(&self.content)
    }

    /// How full the two stores are, after each has done the upkeep that it had put
    /// off.
    pub fn usage(&self) -> (usage: CacheUsage)
        ensures
            usage.content_capacity == self@.content_capacity,
            usage.resized_capacity == self@.resized_capacity,
    {
        proof {
            use_type_invariant(self);
        }
        cache_settle(&self.content);
        cache_settle(&self.resized);
        CacheUsage {
            content_entries: cache_entry_count(&self.content),
            content_capacity: self.max_size,
            resized_entries: cache_entry_count(&self.resized),
            resized_capacity: self.max_size * 2,
        }
    }
}

} // verus!
