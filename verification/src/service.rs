//! The service: the catalog, the two stores of bytes, the counters and the window of
//! request times, and the queries that a server puts to them.
//!
//! A query never reads a file and never waits. Where the bytes of an asset are not at
//! hand, the answer says what is to be done: read the file, or render the original.
//! The caller does that and hands the result back.

use std::time::{Instant, SystemTime};
use vstd::prelude::*;
use vstd::string::*;
use crate::cache::{bounds_fit, no_entries, CacheKey, CacheUsage, Stores, MAX_LIFETIME_SECS};
use crate::catalog::{indexed, strictly_increasing, views_of, Catalog};
use crate::clock::{duration_nanos, elapsed_since, instant_now, system_now};
use crate::error::AppError;
use crate::metrics::{bump, bumped, Metrics};
use crate::models::{Meme, MemeView, ScannedFile};
use crate::text::{decimal, push_decimal};
use crate::window::{
    count_within, nanos_of_secs, pruned, window_nanos, RequestLog, FIFTEEN_MINUTES_SECS,
    FIVE_MINUTES_SECS, ONE_MINUTE_SECS,
};

verus! {

/// All that a query can see or change of a service.
pub struct ServiceState {
    /// The assets of the catalog, by identifier.
    pub assets: Map<u32, MemeView>,
    /// The identifiers of the catalog, ascending.
    pub ids: Seq<u32>,
    /// How many catalogs have been installed.
    pub version: u64,
    /// What the store of originals can answer with for the present catalog.
    pub content: Map<CacheKey, Seq<u8>>,
    /// What the store of renderings can answer with for the present catalog.
    pub resized: Map<CacheKey, Seq<u8>>,
    pub content_capacity: u64,
    pub content_lifetime: u64,
    pub resized_capacity: u64,
    pub resized_lifetime: u64,
    pub memes_dir: Seq<char>,
    pub request_count: u64,
    pub cache_hits: u64,
    pub cache_misses: u64,
    /// The times of the requests that are kept, oldest first.
    pub stamps: Seq<u128>,
    pub start_time: SystemTime,
    pub last_updated: SystemTime,
    pub metrics: Metrics,
}

/// The answer to a query for an asset: its bytes, or what has to be done to get them.
#[derive(Debug)]
pub enum Fetched {
    /// The bytes were at hand.
    Ready { meme: Meme, content: Vec<u8> },
    /// The original is not cached. Read the file of `meme` and hand its bytes, with
    /// `version`, to `content_loaded`.
    ReadFile { meme: Meme, version: u64 },
    /// The rendering is not cached, the original is. Render it and hand the outcome,
    /// with `version`, to `render_finished`.
    Render { meme: Meme, original: Vec<u8>, version: u64 },
    /// Neither is cached. Read the file, hand its bytes to `content_loaded`, render
    /// them and hand the outcome to `render_finished`.
    ReadThenRender { meme: Meme, version: u64 },
}

/// The counts of requests and of cache outcomes at one moment, with the moments at
/// which the service was made and the catalog last rebuilt.
#[derive(Debug, Clone, Copy, PartialEq, Eq)]
pub struct Statistics {
    pub total_requests: u64,
    pub requests_last_minute: u64,
    pub requests_last_5min: u64,
    pub requests_last_15min: u64,
    pub total_memes: usize,
    pub cache_hits: u64,
    pub cache_misses: u64,
    pub start_time: SystemTime,
    pub last_updated: SystemTime,
}

/// The service.
#[derive(Debug)]
pub struct MemeService {
    catalog: Catalog,
    stores: Stores,
    memes_dir: String,
    requests: RequestLog,
    cache_hits: u64,
    cache_misses: u64,
    start_time: SystemTime,
    epoch: Instant,
    last_updated: SystemTime,
    metrics: Metrics,
}

/// The key of an original in its store: the identifier, and no size.
pub open spec fn content_key(id: u32) -> CacheKey {
    (id, None, None)
}

/// The key of a rendering in its store: the identifier with the width and the height
/// as they were asked for. A size that was not asked for is not the size zero.
pub open spec fn derived_key(id: u32, width: Option<u32>, height: Option<u32>) -> CacheKey {
    (id, width, height)
}

/// The message for an identifier that the catalog does not have.
pub open spec fn not_found_text(id: u32) -> Seq<char> {
    "Meme with id "@ + decimal(id as nat) + " not found"@
}

/// The state after a request at `now` was counted: one more request, and its time at
/// the end of the window, from which the times older than the retention are gone.
/// The count of requests stays at the largest number once it is there.
pub open spec fn counted(s: ServiceState, now: u128) -> ServiceState {
    ServiceState {
        request_count: bump(s.request_count),
        stamps: pruned(s.stamps, now).push(now),
        ..s
    }
}

/// The state after the figures were brought up to date: they show the two counters,
/// and `cache_size` as the size of the store of originals.
pub open spec fn refreshed(s: ServiceState, cache_size: u64) -> ServiceState {
    ServiceState {
        metrics: Metrics {
            cache_hits: s.cache_hits,
            cache_misses: s.cache_misses,
            cache_size,
            ..s.metrics
        },
        ..s
    }
}

/// The state after a cache hit: one more hit, and the figures up to date.
pub open spec fn after_hit(s: ServiceState, cache_size: u64) -> ServiceState {
    refreshed(ServiceState { cache_hits: bump(s.cache_hits), ..s }, cache_size)
}

/// The state after a cache miss: one more miss, and the figures up to date.
pub open spec fn after_miss(s: ServiceState, cache_size: u64) -> ServiceState {
    refreshed(ServiceState { cache_misses: bump(s.cache_misses), ..s }, cache_size)
}

/// What a query for the original of `id` at `now` does: `pre` is the state before,
/// `post` the state after and `r` the answer.
///
/// The request is counted whether the identifier is known or not. An unknown identifier
/// is an error. A known one is answered from the store of originals, which is a hit, or
/// with the order to read the file, which is a miss.
pub open spec fn fetched_by_id(
    pre: ServiceState,
    post: ServiceState,
    id: u32,
    now: u128,
    r: Result<Fetched, AppError>,
) -> bool {
    match r {
        Err(e) => {
            &&& !pre.assets.contains_key(id)
            &&& e matches AppError::NotFound(m) && m@ == not_found_text(id)
            &&& post == counted(pre, now)
        },
        Ok(Fetched::Ready { meme, content }) => {
            &&& pre.assets.contains_key(id)
            &&& meme@ == pre.assets[id]
            &&& pre.content.contains_key(content_key(id))
            &&& content@ == pre.content[content_key(id)]
            &&& post == after_hit(counted(pre, now), post.metrics.cache_size)
        },
        Ok(Fetched::ReadFile { meme, version }) => {
            &&& pre.assets.contains_key(id)
            &&& meme@ == pre.assets[id]
            &&& version == pre.version
            &&& post == after_miss(counted(pre, now), post.metrics.cache_size)
        },
        Ok(_) => false,
    }
}

/// What a query for `id` at the size `width` by `height` does at `now`.
///
/// With no size the query is the one for the original, for every identifier. With a
/// size, an unknown identifier is an error, and the request is not counted. Else the
/// request is counted once; the answer comes from the store of renderings, which is a
/// hit, or it is the order to render, with the original from its store, which is a hit
/// there, or after reading the file, which is a miss there.
pub open spec fn fetched_resized(
    pre: ServiceState,
    post: ServiceState,
    id: u32,
    width: Option<u32>,
    height: Option<u32>,
    now: u128,
    r: Result<Fetched, AppError>,
) -> bool {
    if width is None && height is None {
        fetched_by_id(pre, post, id, now, r)
    } else if !pre.assets.contains_key(id) {
        &&& r matches Err(e)
        &&& e matches AppError::NotFound(m) && m@ == not_found_text(id)
        &&& post == pre
    } else {
        let key = derived_key(id, width, height);
        match r {
            Ok(Fetched::Ready { meme, content }) => {
                &&& meme@ == pre.assets[id]
                &&& pre.resized.contains_key(key)
                &&& content@ == pre.resized[key]
                &&& post == after_hit(counted(pre, now), post.metrics.cache_size)
            },
            Ok(Fetched::Render { meme, original, version }) => {
                &&& meme@ == pre.assets[id]
                &&& version == pre.version
                &&& pre.content.contains_key(content_key(id))
                &&& original@ == pre.content[content_key(id)]
                &&& post == after_hit(counted(pre, now), post.metrics.cache_size)
            },
            Ok(Fetched::ReadThenRender { meme, version }) => {
                &&& meme@ == pre.assets[id]
                &&& version == pre.version
                &&& post == after_miss(counted(pre, now), post.metrics.cache_size)
            },
            _ => false,
        }
    }
}

/// What a query for the original of `id` at `now` does once the store of originals has
/// given its answer `found`: `pre` is the state before, `post` the state after and `r`
/// the answer of the query.
///
/// The request is counted. An unknown identifier is an error. For a known one, bytes
/// that the store gave are the answer, which is a hit; where it gave none, the answer
/// is the order to read the file, which is a miss.
pub open spec fn answered_by_id(
    pre: ServiceState,
    post: ServiceState,
    id: u32,
    now: u128,
    found: Option<Vec<u8>>,
    r: Result<Fetched, AppError>,
) -> bool {
    if !pre.assets.contains_key(id) {
        &&& r matches Err(e)
        &&& e matches AppError::NotFound(m) && m@ == not_found_text(id)
        &&& post == counted(pre, now)
    } else {
        match found {
            Some(bytes) => {
                &&& r matches Ok(Fetched::Ready { meme, content })
                &&& meme@ == pre.assets[id]
                &&& content == bytes
                &&& post == after_hit(counted(pre, now), post.metrics.cache_size)
            },
            None => {
                &&& r matches Ok(Fetched::ReadFile { meme, version })
                &&& meme@ == pre.assets[id]
                &&& version == pre.version
                &&& post == after_miss(counted(pre, now), post.metrics.cache_size)
            },
        }
    }
}

/// What a query for `id` at the size `width` by `height` does at `now` once the stores
/// have given their answers: `rendering` that of the store of renderings, `original`
/// that of the store of originals, which is asked only where there is no rendering.
///
/// With no size the query is the one for the original. With a size, an unknown
/// identifier is an error and is not counted. Else the request is counted once: a
/// rendering that the store gave is the answer, which is a hit; without one, the answer
/// is the order to render the original that its store gave, which is a hit, or to read
/// the file first, which is a miss.
pub open spec fn answered_resized(
    pre: ServiceState,
    post: ServiceState,
    id: u32,
    width: Option<u32>,
    height: Option<u32>,
    now: u128,
    rendering: Option<Vec<u8>>,
    original: Option<Vec<u8>>,
    r: Result<Fetched, AppError>,
) -> bool {
    if width is None && height is None {
        answered_by_id(pre, post, id, now, original, r)
    } else if !pre.assets.contains_key(id) {
        &&& r matches Err(e)
        &&& e matches AppError::NotFound(m) && m@ == not_found_text(id)
        &&& post == pre
    } else {
        match rendering {
            Some(bytes) => {
                &&& r matches Ok(Fetched::Ready { meme, content })
                &&& meme@ == pre.assets[id]
                &&& content == bytes
                &&& post == after_hit(counted(pre, now), post.metrics.cache_size)
            },
            None => match original {
                Some(bytes) => {
                    &&& r matches Ok(Fetched::Render { meme, original: source, version })
                    &&& meme@ == pre.assets[id]
                    &&& source == bytes
                    &&& version == pre.version
                    &&& post == after_hit(counted(pre, now), post.metrics.cache_size)
                },
                None => {
                    &&& r matches Ok(Fetched::ReadThenRender { meme, version })
                    &&& meme@ == pre.assets[id]
                    &&& version == pre.version
                    &&& post == after_miss(counted(pre, now), post.metrics.cache_size)
                },
            },
        }
    }
}

/// Whether every request time that is kept belongs to a request that was counted: no
/// more times are kept than requests were counted.
pub open spec fn counts_cover_window(s: ServiceState) -> bool {
    s.stamps.len() <= s.request_count
}

/// What counting the requests of the last `window_secs` seconds at `now` does, with the
/// count `n`: the times older than the retention are dropped and nothing else changes;
/// `n` is the number of kept times within the window, which is no more than are kept,
/// and those are no more than the requests that were counted.
pub open spec fn counted_in_window(
    pre: ServiceState,
    post: ServiceState,
    window_secs: u64,
    now: u128,
    n: u64,
) -> bool {
    &&& post == (ServiceState { stamps: pruned(pre.stamps, now), ..pre })
    &&& n == count_within(post.stamps, now, window_nanos(window_secs))
    &&& n <= post.stamps.len()
    &&& post.stamps.len() <= post.request_count
}

/// What the statistics at `now` do, with the result `stats`: the times older than the
/// retention are dropped, the figures are set to the counts, and nothing else changes,
/// so that no request is counted; `stats` shows the counts, of which each window holds
/// no more than the next longer one, and the longest no more than the total.
pub open spec fn reported(pre: ServiceState, post: ServiceState, now: u128, stats: Statistics) -> bool {
    &&& post == (ServiceState {
        stamps: pruned(pre.stamps, now),
        metrics: Metrics {
            total_memes: pre.assets.dom().len() as u64,
            cache_hits: pre.cache_hits,
            cache_misses: pre.cache_misses,
            ..pre.metrics
        },
        ..pre
    })
    &&& stats == statistics_of(post, now)
    &&& stats.requests_last_minute <= stats.requests_last_5min
    &&& stats.requests_last_5min <= stats.requests_last_15min
    &&& stats.requests_last_15min <= stats.total_requests
}

/// The state after the bytes of the file of `id` were handed in: they are in the store
/// of originals if the catalog is still the one of `version` and has `id`; else nothing
/// has changed.
pub open spec fn with_content(s: ServiceState, id: u32, version: u64, bytes: Seq<u8>) -> ServiceState {
    if version == s.version && s.assets.contains_key(id) {
        ServiceState { content: s.content.insert(content_key(id), bytes), ..s }
    } else {
        s
    }
}

/// The state after a rendering of `id` was handed in: it is in the store of renderings
/// if the catalog is still the one of `version` and has `id`.
pub open spec fn with_rendering(
    s: ServiceState,
    id: u32,
    width: Option<u32>,
    height: Option<u32>,
    version: u64,
    bytes: Seq<u8>,
) -> ServiceState {
    if version == s.version && s.assets.contains_key(id) {
        ServiceState { resized: s.resized.insert(derived_key(id, width, height), bytes), ..s }
    } else {
        s
    }
}

/// The state after a rebuild of the catalog from a scan that found the files `files`:
/// the catalog is that of the scan and counts as a new one, both stores are empty, and
/// the figures show the number of files, and `now` is the moment of the last update.
/// `post` gives what only the rebuild knows: the list of the identifiers.
pub open spec fn rebuilt(
    pre: ServiceState,
    post: ServiceState,
    files: Seq<ScannedFile>,
    now: SystemTime,
) -> ServiceState {
    ServiceState {
        assets: indexed(views_of(files)),
        ids: post.ids,
        version: bump(pre.version),
        content: no_entries(),
        resized: no_entries(),
        last_updated: now,
        metrics: Metrics { total_memes: files.len() as u64, ..pre.metrics },
        ..pre
    }
}

/// Whether `ids` lists the identifiers of `assets`, each once, in ascending order.
pub open spec fn lists_ascending(ids: Seq<u32>, assets: Map<u32, MemeView>) -> bool {
    &&& strictly_increasing(ids)
    &&& forall|id: u32| assets.contains_key(id) <==> ids.contains(id)
}

/// The counts at `now` in the state `s`, whose window has been pruned at `now`.
pub open spec fn statistics_of(s: ServiceState, now: u128) -> Statistics {
    Statistics {
        total_requests: s.request_count,
        requests_last_minute: count_within(s.stamps, now, window_nanos(ONE_MINUTE_SECS)) as u64,
        requests_last_5min: count_within(
            s.stamps,
            now,
            window_nanos(FIVE_MINUTES_SECS),
        ) as u64,
        requests_last_15min: count_within(
            s.stamps,
            now,
            window_nanos(FIFTEEN_MINUTES_SECS),
        ) as u64,
        total_memes: s.assets.dom().len() as usize,
        cache_hits: s.cache_hits,
        cache_misses: s.cache_misses,
        start_time: s.start_time,
        last_updated: s.last_updated,
    }
}

/// Calls `fastrand::usize` on the range from zero to `n`, `n` left out: some number of
/// that range. The call panics on an empty range.
#[verifier::external_body]
fn random_below(n: usize) -> (index: usize)
    requires
        n > 0,
    ensures
        index < n,
{
    fastrand::usize(..n)
}

impl Fetched {
    /// The asset that the answer is about.
    pub open spec fn subject(self) -> Meme {
        match self {
            Fetched::Ready { meme, .. } => meme,
            Fetched::ReadFile { meme, .. } => meme,
            Fetched::Render { meme, .. } => meme,
            Fetched::ReadThenRender { meme, .. } => meme,
        }
    }

    /// The asset that the answer is about.
    pub fn meme(&self) -> (m: &Meme)
        ensures
            *m == self.subject(),
    {
        match self {
            Fetched::Ready { meme, .. } => meme,
            Fetched::ReadFile { meme, .. } => meme,
            Fetched::Render { meme, .. } => meme,
            Fetched::ReadThenRender { meme, .. } => meme,
        }
    }
}

impl View for MemeService {
    type V = ServiceState;

    closed spec fn view(&self) -> ServiceState {
        ServiceState {
            assets: self.catalog@,
            ids: self.catalog.ids(),
            version: self.stores@.version,
            content: self.stores@.content,
            resized: self.stores@.resized,
            content_capacity: self.stores@.content_capacity,
            content_lifetime: self.stores@.content_lifetime,
            resized_capacity: self.stores@.resized_capacity,
            resized_lifetime: self.stores@.resized_lifetime,
            memes_dir: self.memes_dir@,
            request_count: self.requests.total(),
            cache_hits: self.cache_hits,
            cache_misses: self.cache_misses,
            stamps: self.requests.stamps(),
            start_time: self.start_time,
            last_updated: self.last_updated,
            metrics: self.metrics,
        }
    }
}

impl MemeService {
    /// A service for the assets of `memes_dir` that has no catalog yet, made at the
    /// moment that the calendar's clock shows. The store of originals holds at most
    /// `max_size` entries for `ttl_secs` seconds each, the store of renderings twice as
    /// many for twice as long.
    pub fn unloaded(memes_dir: &str, max_size: u64, ttl_secs: u64, metrics: Metrics) -> (s:
        MemeService)
        requires
            bounds_fit(max_size, ttl_secs),
        ensures
            s@.assets == Map::<u32, MemeView>::empty(),
            s@.ids == Seq::<u32>::empty(),
            s@.version == 0,
            s@.content == no_entries(),
            s@.resized == no_entries(),
            s@.content_capacity == max_size,
            s@.content_lifetime == ttl_secs,
            s@.resized_capacity == max_size * 2,
            s@.resized_lifetime == ttl_secs * 2,
            s@.memes_dir == memes_dir@,
            s@.request_count == 0,
            s@.cache_hits == 0,
            s@.cache_misses == 0,
            s@.stamps == Seq::<u128>::empty(),
            s@.metrics == metrics,
            s@.last_updated == s@.start_time,
            counts_cover_window(s@),
    {
        let started = system_now();
        MemeService::unloaded_at(memes_dir, max_size, ttl_secs, metrics, started)
    }

    /// A service for the assets of `memes_dir` that has no catalog yet, made at the
    /// moment `started`, which is also the moment of its last update.
    pub fn unloaded_at(
        memes_dir: &str,
        max_size: u64,
        ttl_secs: u64,
        metrics: Metrics,
        started: SystemTime,
    ) -> (s: MemeService)
        requires
            bounds_fit(max_size, ttl_secs),
        ensures
            s@.start_time == started,
            s@.last_updated == started,
            s@.assets == Map::<u32, MemeView>::empty(),
            s@.ids == Seq::<u32>::empty(),
            s@.version == 0,
            s@.content == no_entries(),
            s@.resized == no_entries(),
            s@.content_capacity == max_size,
            s@.content_lifetime == ttl_secs,
            s@.resized_capacity == max_size * 2,
            s@.resized_lifetime == ttl_secs * 2,
            s@.memes_dir == memes_dir@,
            s@.request_count == 0,
            s@.cache_hits == 0,
            s@.cache_misses == 0,
            s@.stamps == Seq::<u128>::empty(),
            s@.metrics == metrics,
            counts_cover_window(s@),
    {
        MemeService {
            catalog: Catalog::empty(),
            stores: Stores::new(max_size, ttl_secs),
            memes_dir: String::from_str(memes_dir),
            requests: RequestLog::new(),
            cache_hits: 0,
            cache_misses: 0,
            start_time: started,
            epoch: instant_now(),
            last_updated: started,
            metrics,
        }
    }

    /// A service with the catalog of a first scan, which found `files`, made at the
    /// moment that the calendar's clock shows. There is no service where the scan found
    /// nothing.
    pub fn new(
        memes_dir: &str,
        max_size: u64,
        ttl_secs: u64,
        metrics: Metrics,
        files: &Vec<ScannedFile>,
    ) -> (r: Result<MemeService, AppError>)
        requires
            bounds_fit(max_size, ttl_secs),
        ensures
            r is Ok <==> files@.len() > 0,
            r matches Err(e) ==> e matches AppError::Internal(m) && m@ == "No memes found"@,
            r matches Ok(s) ==> loaded_first(s@, memes_dir@, max_size, ttl_secs, metrics, files@)
                && s@.last_updated == s@.start_time,
    {
        let started = system_now();
        MemeService::new_at(memes_dir, max_size, ttl_secs, metrics, files, started)
    }

    /// A service with the catalog of a first scan, which found `files`, made at the
    /// moment `started`, which is also the moment of its last update. There is no
    /// service where the scan found nothing.
    pub fn new_at(
        memes_dir: &str,
        max_size: u64,
        ttl_secs: u64,
        metrics: Metrics,
        files: &Vec<ScannedFile>,
        started: SystemTime,
    ) -> (r: Result<MemeService, AppError>)
        requires
            bounds_fit(max_size, ttl_secs),
        ensures
            r is Ok <==> files@.len() > 0,
            r matches Err(e) ==> e matches AppError::Internal(m) && m@ == "No memes found"@,
            r matches Ok(s) ==> {
                &&& loaded_first(s@, memes_dir@, max_size, ttl_secs, metrics, files@)
                &&& s@.start_time == started
                &&& s@.last_updated == started
            },
    {
        let mut service = MemeService::unloaded_at(memes_dir, max_size, ttl_secs, metrics, started);
        match service.reload_memes_at(files, started) {
            Ok(()) => Ok(service),
            Err(e) => Err(e),
        }
    }
}

/// Whether `s` is the state of a service that was made for the assets of `memes_dir`
/// with these bounds and figures and has the catalog of its first scan, which found
/// `files`: nothing is cached and nothing counted yet.
pub open spec fn loaded_first(
    s: ServiceState,
    memes_dir: Seq<char>,
    max_size: u64,
    ttl_secs: u64,
    metrics: Metrics,
    files: Seq<ScannedFile>,
) -> bool {
    &&& s.assets == indexed(views_of(files))
    &&& lists_ascending(s.ids, s.assets)
    &&& s.ids.len() > 0
    &&& s.version == 1
    &&& s.content == no_entries()
    &&& s.resized == no_entries()
    &&& s.content_capacity == max_size
    &&& s.content_lifetime == ttl_secs
    &&& s.resized_capacity == max_size * 2
    &&& s.resized_lifetime == ttl_secs * 2
    &&& s.memes_dir == memes_dir
    &&& s.request_count == 0
    &&& s.cache_hits == 0
    &&& s.cache_misses == 0
    &&& s.stamps == Seq::<u128>::empty()
    &&& s.metrics == (Metrics { total_memes: files.len() as u64, ..metrics })
    &&& counts_cover_window(s)
}

impl MemeService {
    /// Rebuilds the catalog from a scan of the asset directory that found `files`, and
    /// notes the moment that the calendar's clock shows as that of the update.
    ///
    /// A scan that found nothing is refused, and nothing changes. Else the catalog of
    /// the scan takes the place of the old one, and neither store has an entry for it
    /// yet: what was cached for the old catalog is never answered with again.
    pub fn reload_memes(&mut self, files: &Vec<ScannedFile>) -> (r: Result<(), AppError>)
        ensures
            r is Ok <==> files@.len() > 0,
            r matches Err(e) ==> {
                &&& e matches AppError::Internal(m) && m@ == "No memes found"@
                &&& final(self)@ == old(self)@
            },
            r is Ok ==> {
                &&& final(self)@ == rebuilt(
                    old(self)@,
                    final(self)@,
                    files@,
                    final(self)@.last_updated,
                )
                &&& lists_ascending(final(self)@.ids, final(self)@.assets)
                &&& final(self)@.ids.len() > 0
            },
            old(self)@.ids.len() > 0 ==> final(self)@.ids.len() > 0,
    {
        let now = system_now();
        self.reload_memes_at(files, now)
    }

    /// Rebuilds the catalog from a scan of the asset directory that found `files`, at
    /// the moment `now`.
    ///
    /// A scan that found nothing is refused, and nothing changes. Else the catalog of
    /// the scan takes the place of the old one, neither store has an entry for it yet,
    /// and `now` is the moment of the last update.
    pub fn reload_memes_at(&mut self, files: &Vec<ScannedFile>, now: SystemTime) -> (r: Result<
        (),
        AppError,
    >)
        ensures
            r is Ok <==> files@.len() > 0,
            r matches Err(e) ==> {
                &&& e matches AppError::Internal(m) && m@ == "No memes found"@
                &&& final(self)@ == old(self)@
            },
            r is Ok ==> {
                &&& final(self)@ == rebuilt(old(self)@, final(self)@, files@, now)
                &&& final(self)@.last_updated == now
                &&& lists_ascending(final(self)@.ids, final(self)@.assets)
                &&& final(self)@.ids.len() > 0
            },
            old(self)@.ids.len() > 0 ==> final(self)@.ids.len() > 0,
    {
        let catalog = match Catalog::build(files) {
            Ok(catalog) => catalog,
            Err(e) => {
                return Err(e);
            },
        };
        self.catalog = catalog;
        self.stores.start_anew();
        self.last_updated = now;
        self.metrics.total_memes = files.len() as u64;
        Ok(())
    }
}

/// Whether both stores can be made with these bounds.
pub fn cache_bounds_fit(max_size: u64, ttl_secs: u64) -> (fit: bool)
    ensures
        fit == bounds_fit(max_size, ttl_secs),
{
    max_size <= u64::MAX / 2 && ttl_secs <= MAX_LIFETIME_SECS / 2
}

/// The error for an identifier that the catalog does not have.
pub fn unknown_id(id: u32) -> (e: AppError)
    ensures
        e matches AppError::NotFound(m) && m@ == not_found_text(id),
{
    let mut message = String::from_str("Meme with id ");
    push_decimal(&mut message, id as u64);
    message.append(" not found");
    AppError::NotFound(message)
}

/// The key of a rendering in its store.
pub fn rendering_key(id: u32, width: Option<u32>, height: Option<u32>) -> (key: CacheKey)
    ensures
        key == derived_key(id, width, height),
{
    (id, width, height)
}

impl MemeService {
    /// The time on the service's own clock, in nanoseconds.
    fn now(&self) -> (now: u128) {
        let elapsed = elapsed_since(&self.epoch);
        duration_nanos(&elapsed)
    }

    /// Counts a request at `now`.
    fn note_request(&mut self, now: u128)
        ensures
            final(self)@ == counted(old(self)@, now),
    {
        self.requests.note(now);
    }

    /// Brings the figures up to date: the two counters, and the size of the store of
    /// originals as the store estimates it.
    pub fn update_cache_metrics(&mut self)
        ensures
            final(self)@ == refreshed(old(self)@, final(self)@.metrics.cache_size),
    {
        self.metrics.cache_hits = self.cache_hits;
        self.metrics.cache_misses = self.cache_misses;
        self.metrics.cache_size = self.stores.content_size();
    }

    fn note_hit(&mut self)
        ensures
            final(self)@ == after_hit(old(self)@, final(self)@.metrics.cache_size),
    {
        self.cache_hits = bumped(self.cache_hits);
        self.update_cache_metrics();
    }

    fn note_miss(&mut self)
        ensures
            final(self)@ == after_miss(old(self)@, final(self)@.metrics.cache_size),
    {
        self.cache_misses = bumped(self.cache_misses);
        self.update_cache_metrics();
    }

    /// Answers a query for the original of `id` that comes in at `now`, given the
    /// answer `found` of the store of originals.
    pub fn answer_by_id(&mut self, id: u32, now: u128, found: Option<Vec<u8>>) -> (r: Result<
        Fetched,
        AppError,
    >)
        ensures
            answered_by_id(old(self)@, final(self)@, id, now, found, r),
            r is Ok <==> old(self)@.assets.contains_key(id),
            r matches Ok(f) ==> f.subject().id == id,
    {
        self.note_request(now);
        let meme = match self.catalog.get(id) {
            Some(meme) => meme.clone(),
            None => {
                return Err(unknown_id(id));
            },
        };
        match found {
            Some(content) => {
                self.note_hit();
                Ok(Fetched::Ready { meme, content })
            },
            None => {
                self.note_miss();
                Ok(Fetched::ReadFile { meme, version: self.stores.version() })
            },
        }
    }

    /// Answers a query for the original of `id` that comes in at `now`. The store of
    /// originals is asked where the identifier is known.
    pub fn get_by_id_at(&mut self, id: u32, now: u128) -> (r: Result<Fetched, AppError>)
        ensures
            fetched_by_id(old(self)@, final(self)@, id, now, r),
            r is Ok <==> old(self)@.assets.contains_key(id),
            r matches Ok(f) ==> f.subject().id == id,
    {
        let found = if self.catalog.get(id).is_some() {
            self.stores.content_entry((id, None, None))
        } else {
            None
        };
        self.answer_by_id(id, now, found)
    }

    /// Answers a query for the original of `id`. The request is counted at the moment
    /// that the service's clock shows, which is the last of the request times after.
    pub fn get_by_id(&mut self, id: u32) -> (r: Result<Fetched, AppError>)
        ensures
            fetched_by_id(old(self)@, final(self)@, id, final(self)@.stamps.last(), r),
            r is Ok <==> old(self)@.assets.contains_key(id),
            r matches Ok(f) ==> f.subject().id == id,
    {
        let now = self.now();
        self.get_by_id_at(id, now)
    }

    /// Answers a query at `now` for the original of the asset at place `index` of the
    /// ascending list of identifiers.
    pub fn pick_at(&mut self, index: usize, now: u128) -> (r: Result<Fetched, AppError>)
        requires
            index < old(self)@.ids.len(),
        ensures
            r is Ok,
            fetched_by_id(old(self)@, final(self)@, old(self)@.ids[index as int], now, r),
            r matches Ok(f) ==> f.subject().id == old(self)@.ids[index as int],
    {
        let id = self.catalog.id_at(index);
        self.get_by_id_at(id, now)
    }

    /// Answers a query for the original of an asset picked at random.
    ///
    /// The request is counted. Where the catalog is empty the answer is an error. Else
    /// it is the answer to the query for one of the catalog's identifiers: that of the
    /// asset in the answer.
    pub fn get_random(&mut self) -> (r: Result<Fetched, AppError>)
        ensures
            r is Ok <==> old(self)@.ids.len() > 0,
            r matches Err(e) ==> {
                &&& e matches AppError::NotFound(m) && m@ == "No memes available"@
                &&& final(self)@ == counted(old(self)@, final(self)@.stamps.last())
            },
            r matches Ok(f) ==> {
                &&& old(self)@.ids.contains(f.subject().id)
                &&& fetched_by_id(
                    old(self)@,
                    final(self)@,
                    f.subject().id,
                    final(self)@.stamps.last(),
                    r,
                )
            },
    {
        let now = self.now();
        let count = self.catalog.len();
        if count == 0 {
            self.note_request(now);
            return Err(AppError::NotFound(String::from_str("No memes available")));
        }
        let index = random_below(count);
        let r = self.pick_at(index, now);
        proof {
            assert(old(self)@.ids.contains(old(self)@.ids[index as int]));
        }
        r
    }

    /// Answers a query that comes in at `now` for `id` at the size `width` by `height`,
    /// given the answers of the two stores: `rendering` that of the store of renderings,
    /// `original` that of the store of originals.
    pub fn answer_resized(
        &mut self,
        id: u32,
        width: Option<u32>,
        height: Option<u32>,
        now: u128,
        rendering: Option<Vec<u8>>,
        original: Option<Vec<u8>>,
    ) -> (r: Result<Fetched, AppError>)
        ensures
            answered_resized(
                old(self)@,
                final(self)@,
                id,
                width,
                height,
                now,
                rendering,
                original,
                r,
            ),
            r is Ok <==> old(self)@.assets.contains_key(id),
            r matches Ok(f) ==> f.subject().id == id,
    {
        if width.is_none() && height.is_none() {
            return self.answer_by_id(id, now, original);
        }
        let meme = match self.catalog.get(id) {
            Some(meme) => meme.clone(),
            None => {
                return Err(unknown_id(id));
            },
        };
        match rendering {
            Some(content) => {
                self.note_request(now);
                self.note_hit();
                Ok(Fetched::Ready { meme, content })
            },
            None => {
                match self.answer_by_id(id, now, original) {
                    Ok(Fetched::Ready { meme, content }) => Ok(
                        Fetched::Render {
                            meme,
                            original: content,
                            version: self.stores.version(),
                        },
                    ),
                    Ok(Fetched::ReadFile { meme, version }) => Ok(
                        Fetched::ReadThenRender { meme, version },
                    ),
                    Ok(other) => Ok(other),
                    Err(e) => Err(e),
                }
            },
        }
    }

    /// Answers a query that comes in at `now` for `id` at the size `width` by `height`.
    /// With a size and a known identifier the store of renderings is asked, and where
    /// it has nothing, the store of originals.
    pub fn get_resized_image_at(
        &mut self,
        id: u32,
        width: Option<u32>,
        height: Option<u32>,
        now: u128,
    ) -> (r: Result<Fetched, AppError>)
        ensures
            fetched_resized(old(self)@, final(self)@, id, width, height, now, r),
            r is Ok <==> old(self)@.assets.contains_key(id),
            r matches Ok(f) ==> f.subject().id == id,
    {
        if width.is_none() && height.is_none() {
            return self.get_by_id_at(id, now);
        }
        let known = self.catalog.get(id).is_some();
        let rendering = if known {
            self.stores.resized_entry(rendering_key(id, width, height))
        } else {
            None
        };
        let original = if known && rendering.is_none() {
            self.stores.content_entry((id, None, None))
        } else {
            None
        };
        self.answer_resized(id, width, height, now, rendering, original)
    }

    /// Answers a query for `id` at the size `width` by `height`. Where the request is
    /// counted, it is at the moment that the service's clock shows, which is the last of
    /// the request times after.
    pub fn get_resized_image(&mut self, id: u32, width: Option<u32>, height: Option<u32>) -> (r:
        Result<Fetched, AppError>)
        ensures
            fetched_resized(
                old(self)@,
                final(self)@,
                id,
                width,
                height,
                final(self)@.stamps.last(),
                r,
            ),
            r is Ok <==> old(self)@.assets.contains_key(id),
            r matches Ok(f) ==> f.subject().id == id,
    {
        let now = self.now();
        self.get_resized_image_at(id, width, height, now)
    }

    /// Takes the bytes that were read from the file of `id` after the answer `ReadFile`
    /// or `ReadThenRender`, which gave `version`, and puts them into the store of
    /// originals. Bytes that were read for an earlier catalog are not put there.
    pub fn content_loaded(&mut self, id: u32, version: u64, content: &Vec<u8>)
        ensures
            final(self)@ == with_content(old(self)@, id, version, content@),
    {
        if version == self.stores.version() && self.catalog.get(id).is_some() {
            self.stores.put_content((id, None, None), content.clone());
        }
    }

    /// Takes the outcome of rendering `id` at `width` by `height` after the answer
    /// `Render` or `ReadThenRender`, which gave `version`.
    ///
    /// A rendering is put into the store of renderings, unless it was made for an
    /// earlier catalog; it counts as a miss, and it is the result. A failure is the
    /// result as it is, and nothing changes: it is not cached and not counted.
    pub fn render_finished(
        &mut self,
        id: u32,
        width: Option<u32>,
        height: Option<u32>,
        version: u64,
        outcome: Result<Vec<u8>, AppError>,
    ) -> (r: Result<Vec<u8>, AppError>)
        ensures
            r == outcome,
            outcome is Err ==> final(self)@ == old(self)@,
            outcome matches Ok(bytes) ==> final(self)@ == after_miss(
                with_rendering(old(self)@, id, width, height, version, bytes@),
                final(self)@.metrics.cache_size,
            ),
    {
        match outcome {
            Ok(bytes) => {
                if version == self.stores.version() && self.catalog.get(id).is_some() {
                    self.stores.put_resized(rendering_key(id, width, height), bytes.clone());
                }
                self.note_miss();
                Ok(bytes)
            },
            Err(e) => Err(e),
        }
    }

    /// The number of requests that were counted, which is no less than the number of
    /// request times that are kept.
    pub fn get_request_count(&self) -> (n: u64)
        ensures
            n == self@.request_count,
            counts_cover_window(self@),
    {
        self.requests.total_count()
    }

    /// The number of assets in the catalog, which is the length of the ascending list of
    /// their identifiers.
    pub fn get_total_memes(&self) -> (n: usize)
        ensures
            n == self@.assets.dom().len(),
            n == self@.ids.len(),
            lists_ascending(self@.ids, self@.assets),
    {
        self.catalog.len()
    }

    /// When the service was made.
    pub fn get_start_time(&self) -> (t: SystemTime)
        ensures
            t == self@.start_time,
    {
        self.start_time
    }

    /// When the catalog was last rebuilt.
    pub fn get_last_updated(&self) -> (t: SystemTime)
        ensures
            t == self@.last_updated,
    {
        self.last_updated
    }

    /// The numbers of cache hits and of cache misses.
    pub fn get_cache_stats(&self) -> (stats: (u64, u64))
        ensures
            stats == (self@.cache_hits, self@.cache_misses),
    {
        (self.cache_hits, self.cache_misses)
    }

    /// How many catalogs have been installed.
    pub fn version(&self) -> (v: u64)
        ensures
            v == self@.version,
    {
        self.stores.version()
    }

    /// The directory of the assets.
    pub fn memes_dir(&self) -> (dir: &str)
        ensures
            dir@ == self@.memes_dir,
    {
        self.memes_dir.as_str()
    }

    /// The figures of the service.
    pub fn metrics(&self) -> (m: &Metrics)
        ensures
            *m == self@.metrics,
    {
        &self.metrics
    }

    /// Counts a request that came in over the network in the figures.
    pub fn count_network_request(&mut self)
        ensures
            final(self)@ == (ServiceState {
                metrics: Metrics {
                    requests_total: bump(old(self)@.metrics.requests_total),
                    ..old(self)@.metrics
                },
                ..old(self)@
            }),
    {
        self.metrics.count_request();
    }

    /// All assets of the catalog, by ascending identifier.
    pub fn get_all_memes(&self) -> (r: Vec<&Meme>)
        ensures
            r@.len() == self@.ids.len(),
            forall|i: int|
                0 <= i < r@.len() ==> (#[trigger] r@[i]).id == self@.ids[i] && r@[i]@
                    == self@.assets[self@.ids[i]],
            forall|i: int, j: int| 0 <= i < j < r@.len() ==> r@[i].id < r@[j].id,
    {
        self.catalog.list()
    }

    /// The number of requests that are no older than `window_secs` seconds at `now`.
    /// The request times older than the retention are dropped.
    pub fn get_requests_in_window_at(&mut self, window_secs: u64, now: u128) -> (n: u64)
        ensures
            counted_in_window(old(self)@, final(self)@, window_secs, now, n),
    {
        self.requests.count_in(now, nanos_of_secs(window_secs))
    }

    /// The number of requests of the last `window_secs` seconds, by the service's
    /// clock. All that is known of the moment `now` that the clock shows is that the
    /// result is the count at `now`.
    pub fn get_requests_in_window(&mut self, window_secs: u64) -> (n: u64)
        ensures
            exists|now: u128| #[trigger]
                counted_in_window(old(self)@, final(self)@, window_secs, now, n),
    {
        let now = self.now();
        self.get_requests_in_window_at(window_secs, now)
    }

    /// The number of requests of the last minute, by the service's clock.
    pub fn get_requests_last_minute(&mut self) -> (n: u64)
        ensures
            exists|now: u128| #[trigger]
                counted_in_window(old(self)@, final(self)@, ONE_MINUTE_SECS, now, n),
    {
        self.get_requests_in_window(ONE_MINUTE_SECS)
    }

    /// The number of requests of the last five minutes, by the service's clock.
    pub fn get_requests_last_5_minutes(&mut self) -> (n: u64)
        ensures
            exists|now: u128| #[trigger]
                counted_in_window(old(self)@, final(self)@, FIVE_MINUTES_SECS, now, n),
    {
        self.get_requests_in_window(FIVE_MINUTES_SECS)
    }

    /// The number of requests of the last fifteen minutes, by the service's clock.
    pub fn get_requests_last_15_minutes(&mut self) -> (n: u64)
        ensures
            exists|now: u128| #[trigger]
                counted_in_window(old(self)@, final(self)@, FIFTEEN_MINUTES_SECS, now, n),
    {
        self.get_requests_in_window(FIFTEEN_MINUTES_SECS)
    }

    /// The counts at `now`. The request times older than the retention are dropped, and
    /// the figures are set to the counts.
    pub fn statistics_at(&mut self, now: u128) -> (stats: Statistics)
        ensures
            reported(old(self)@, final(self)@, now, stats),
    {
        let requests_last_minute = self.get_requests_in_window_at(ONE_MINUTE_SECS, now);
        proof {
            let kept = pruned(old(self)@.stamps, now);
            crate::window::lemma_pruned_twice(old(self)@.stamps, now);
            crate::window::lemma_count_monotone(
                kept,
                now,
                window_nanos(ONE_MINUTE_SECS),
                window_nanos(FIVE_MINUTES_SECS),
            );
            crate::window::lemma_count_monotone(
                kept,
                now,
                window_nanos(FIVE_MINUTES_SECS),
                window_nanos(FIFTEEN_MINUTES_SECS),
            );
        }
        let requests_last_5min = self.get_requests_in_window_at(FIVE_MINUTES_SECS, now);
        let requests_last_15min = self.get_requests_in_window_at(FIFTEEN_MINUTES_SECS, now);
        let total_memes = self.get_total_memes();
        self.metrics.total_memes = total_memes as u64;
        self.metrics.cache_hits = self.cache_hits;
        self.metrics.cache_misses = self.cache_misses;
        Statistics {
            total_requests: self.requests.total_count(),
            requests_last_minute,
            requests_last_5min,
            requests_last_15min,
            total_memes,
            cache_hits: self.cache_hits,
            cache_misses: self.cache_misses,
            start_time: self.start_time,
            last_updated: self.last_updated,
        }
    }

    /// The counts at the moment that the service's clock shows.
    pub fn statistics(&mut self) -> (stats: Statistics)
        ensures
            exists|now: u128| #[trigger] reported(old(self)@, final(self)@, now, stats),
    {
        let now = self.now();
        self.statistics_at(now)
    }

    /// How full the two stores are, after each has done the upkeep that it had put
    /// off. The state does not change.
    pub fn cache_usage(&mut self) -> (usage: CacheUsage)
        ensures
            final(self)@ == old(self)@,
            usage.content_capacity == old(self)@.content_capacity,
            usage.resized_capacity == old(self)@.resized_capacity,
    {
        self.stores.usage()
    }
}

/// Two requests for one asset share a rendering exactly if they ask for the same
/// width and the same height, a size that was not asked for being different from every
/// size that was.
pub proof fn lemma_rendering_keys(
    id: u32,
    width: Option<u32>,
    height: Option<u32>,
    other_width: Option<u32>,
    other_height: Option<u32>,
)
    ensures
        derived_key(id, width, height) == derived_key(id, other_width, other_height) <==> width
            == other_width && height == other_height,
        width is Some || height is Some ==> derived_key(id, width, height) != content_key(id),
{
}

/// A width alone and the same number as a height alone never share a key, and neither
/// shares one with the two together or with a size of zero in place of none.
pub proof fn lemma_width_is_not_height(id: u32, n: u32)
    ensures
        derived_key(id, Some(n), None) != derived_key(id, None, Some(n)),
        derived_key(id, Some(n), None) != derived_key(id, Some(n), Some(n)),
        derived_key(id, None, Some(n)) != derived_key(id, Some(0), Some(n)),
        derived_key(id, Some(n), None) != derived_key(id, Some(n), Some(0)),
{
}

/// Renderings of one asset at two sizes with different keys are two entries: after
/// both were handed in, each is answered with under its own key.
pub proof fn lemma_two_renderings_two_entries(
    s: ServiceState,
    id: u32,
    width: Option<u32>,
    height: Option<u32>,
    other_width: Option<u32>,
    other_height: Option<u32>,
    first: Seq<u8>,
    second: Seq<u8>,
)
    requires
        s.assets.contains_key(id),
        derived_key(id, width, height) != derived_key(id, other_width, other_height),
    ensures
        ({
            let one = with_rendering(s, id, width, height, s.version, first);
            let two = with_rendering(one, id, other_width, other_height, s.version, second);
            &&& two.resized.contains_key(derived_key(id, width, height))
            &&& two.resized[derived_key(id, width, height)] == first
            &&& two.resized.contains_key(derived_key(id, other_width, other_height))
            &&& two.resized[derived_key(id, other_width, other_height)] == second
        }),
{
}

/// No query changes the catalog, and neither does handing in bytes or a rendering:
/// the assets, their list and the version stay as they are.
pub proof fn lemma_queries_keep_catalog(
    pre: ServiceState,
    post: ServiceState,
    id: u32,
    width: Option<u32>,
    height: Option<u32>,
    now: u128,
    r: Result<Fetched, AppError>,
    version: u64,
    bytes: Seq<u8>,
)
    ensures
        forall|found: Option<Vec<u8>>| #[trigger]
            answered_by_id(pre, post, id, now, found, r) ==> post.assets == pre.assets
                && post.ids == pre.ids && post.version == pre.version,
        forall|rendering: Option<Vec<u8>>, original: Option<Vec<u8>>| #[trigger]
            answered_resized(pre, post, id, width, height, now, rendering, original, r)
                ==> post.assets == pre.assets && post.ids == pre.ids && post.version
                == pre.version,
        fetched_by_id(pre, post, id, now, r) ==> post.assets == pre.assets && post.ids == pre.ids
            && post.version == pre.version,
        fetched_resized(pre, post, id, width, height, now, r) ==> post.assets == pre.assets
            && post.ids == pre.ids && post.version == pre.version,
        with_content(pre, id, version, bytes).assets == pre.assets,
        with_rendering(pre, id, width, height, version, bytes).assets == pre.assets,
{
}

/// A query for an original that is answered from the store gives the bytes that were
/// handed in last for it, and counts one hit more: `pre` is the state before the bytes
/// were handed in for the present catalog, `post` the state after the query.
pub proof fn lemma_warm_fetch(
    pre: ServiceState,
    post: ServiceState,
    id: u32,
    bytes: Seq<u8>,
    now: u128,
    r: Result<Fetched, AppError>,
)
    requires
        pre.assets.contains_key(id),
        fetched_by_id(with_content(pre, id, pre.version, bytes), post, id, now, r),
        r matches Ok(Fetched::Ready { .. }),
    ensures
        r matches Ok(Fetched::Ready { content, .. }) && content@ == bytes,
        post.cache_hits == bump(pre.cache_hits),
        post.cache_misses == pre.cache_misses,
        post.request_count == bump(pre.request_count),
{
}

/// Two queries for one original, one right after the other, that are both answered
/// from the store give the same bytes, and the second counts one hit more.
pub proof fn lemma_repeated_fetch(
    pre: ServiceState,
    mid: ServiceState,
    post: ServiceState,
    id: u32,
    first_now: u128,
    second_now: u128,
    first: Result<Fetched, AppError>,
    second: Result<Fetched, AppError>,
)
    requires
        fetched_by_id(pre, mid, id, first_now, first),
        fetched_by_id(mid, post, id, second_now, second),
        first matches Ok(Fetched::Ready { .. }),
        second matches Ok(Fetched::Ready { .. }),
    ensures
        first matches Ok(Fetched::Ready { content: a, .. }) && second matches Ok(
            Fetched::Ready { content: b, .. },
        ) && a@ == b@,
        post.cache_hits == bump(mid.cache_hits),
{
}

/// A rendering that was handed in for the present catalog is cached under its key,
/// also after a failure for the same key, which left the store as it was.
pub proof fn lemma_rendering_is_cached(
    s: ServiceState,
    id: u32,
    width: Option<u32>,
    height: Option<u32>,
    bytes: Seq<u8>,
    cache_size: u64,
)
    requires
        s.assets.contains_key(id),
    ensures
        ({
            let after = after_miss(
                with_rendering(s, id, width, height, s.version, bytes),
                cache_size,
            );
            &&& after.resized.contains_key(derived_key(id, width, height))
            &&& after.resized[derived_key(id, width, height)] == bytes
            &&& after.cache_misses == bump(s.cache_misses)
            &&& after.content == s.content
        }),
{
}

/// A rebuild never leaves a catalog without assets where there was one with assets:
/// it installs the catalog of a scan that found files, which has assets, or it changes
/// nothing.
pub proof fn lemma_rebuild_keeps_assets(pre: ServiceState, post: ServiceState, files: Seq<
    ScannedFile,
>)
    requires
        files.len() > 0,
        post == rebuilt(pre, post, files, post.last_updated),
    ensures
        post.assets.dom().finite(),
        post.assets.dom().len() > 0,
        post.content == no_entries(),
        post.resized == no_entries(),
{
    crate::catalog::lemma_indexed_empty(views_of(files));
}

/// Where the store of originals gives bytes for a known asset, the query is answered
/// with just these bytes; one request and one hit more are counted, and no miss.
pub proof fn lemma_store_answer_is_served(
    pre: ServiceState,
    post: ServiceState,
    id: u32,
    now: u128,
    bytes: Vec<u8>,
    r: Result<Fetched, AppError>,
)
    requires
        pre.assets.contains_key(id),
        answered_by_id(pre, post, id, now, Some(bytes), r),
    ensures
        r matches Ok(Fetched::Ready { meme, content }) && content == bytes && meme@
            == pre.assets[id],
        post.cache_hits == bump(pre.cache_hits),
        post.cache_misses == pre.cache_misses,
        post.request_count == bump(pre.request_count),
        post.content == pre.content,
{
}

/// Where the store of renderings gives bytes for a known asset and a size, the query
/// is answered with just these bytes, whatever the store of originals has; one request
/// and one hit more are counted, and no miss.
pub proof fn lemma_rendering_answer_is_served(
    pre: ServiceState,
    post: ServiceState,
    id: u32,
    width: Option<u32>,
    height: Option<u32>,
    now: u128,
    bytes: Vec<u8>,
    original: Option<Vec<u8>>,
    r: Result<Fetched, AppError>,
)
    requires
        pre.assets.contains_key(id),
        width is Some || height is Some,
        answered_resized(pre, post, id, width, height, now, Some(bytes), original, r),
    ensures
        r matches Ok(Fetched::Ready { meme, content }) && content == bytes && meme@
            == pre.assets[id],
        post.cache_hits == bump(pre.cache_hits),
        post.cache_misses == pre.cache_misses,
        post.request_count == bump(pre.request_count),
        post.resized == pre.resized,
{
}

/// With no size, the query for a size is the query for the original, for known and
/// for unknown identifiers alike.
pub proof fn lemma_no_size_is_the_plain_query(
    pre: ServiceState,
    post: ServiceState,
    id: u32,
    now: u128,
    found: Option<Vec<u8>>,
    rendering: Option<Vec<u8>>,
    r: Result<Fetched, AppError>,
)
    ensures
        fetched_resized(pre, post, id, None, None, now, r) <==> fetched_by_id(pre, post, id, now, r),
        answered_resized(pre, post, id, None, None, now, rendering, found, r) <==> answered_by_id(
            pre,
            post,
            id,
            now,
            found,
            r,
        ),
{
}

/// Of two counts at one moment over the same request times, that of the shorter window
/// is no more than that of the longer, which is no more than the times that are kept,
/// which are no more than the requests that were counted.
pub proof fn lemma_window_counts_in_order(
    pre: ServiceState,
    shorter_post: ServiceState,
    longer_post: ServiceState,
    shorter_secs: u64,
    longer_secs: u64,
    now: u128,
    shorter: u64,
    longer: u64,
)
    requires
        shorter_secs <= longer_secs,
        counted_in_window(pre, shorter_post, shorter_secs, now, shorter),
        counted_in_window(pre, longer_post, longer_secs, now, longer),
    ensures
        shorter <= longer,
        longer <= longer_post.stamps.len(),
        longer_post.stamps.len() <= longer_post.request_count,
        longer <= longer_post.request_count,
        shorter_post == longer_post,
{
    assert(shorter_secs * 1_000_000_000 <= longer_secs * 1_000_000_000) by (nonlinear_arith)
        requires
            shorter_secs <= longer_secs,
    ;
    assert(longer_secs * 1_000_000_000 <= u128::MAX) by (nonlinear_arith)
        requires
            longer_secs <= u64::MAX,
    ;
    crate::window::lemma_count_monotone(
        pruned(pre.stamps, now),
        now,
        window_nanos(shorter_secs),
        window_nanos(longer_secs),
    );
}

} // verus!
