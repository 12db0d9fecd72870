//! The sliding window of request times, from which the request rates are counted.
//!
//! Times are nanoseconds on a clock that does not run backwards, counted from a moment
//! that the owner of the window has fixed.

use std::collections::VecDeque;
use vstd::prelude::*;
use crate::metrics::{bump, bumped};

verus! {

broadcast use vstd::std_specs::vecdeque::group_vec_dequeue_axioms;

pub const NANOS_PER_SEC: u128 = 1_000_000_000;

/// How long a request time is kept: fifteen minutes.
pub const RETENTION_NANOS: u128 = 900_000_000_000;

pub const ONE_MINUTE_SECS: u64 = 60;

pub const FIVE_MINUTES_SECS: u64 = 300;

pub const FIFTEEN_MINUTES_SECS: u64 = 900;

/// A number of seconds in nanoseconds.
pub open spec fn window_nanos(secs: u64) -> u128 {
    (secs * NANOS_PER_SEC) as u128
}

/// A number of seconds in nanoseconds.
pub fn nanos_of_secs(secs: u64) -> (nanos: u128)
    ensures
        nanos == window_nanos(secs),
        nanos == secs * NANOS_PER_SEC,
{
    assert(secs * NANOS_PER_SEC <= u64::MAX * NANOS_PER_SEC) by (nonlinear_arith)
        requires
            secs <= u64::MAX,
            NANOS_PER_SEC == 1_000_000_000,
    ;
    (secs as u128) * NANOS_PER_SEC
}

/// The time that has passed at `now` since `t`; none where `t` is later than `now`.
pub open spec fn age(now: u128, t: u128) -> int {
    if now >= t {
        now - t
    } else {
        0
    }
}

/// How many elements at the front of `stamps` are older than the retention at `now`,
/// up to the first that is not.
pub open spec fn stale_prefix(stamps: Seq<u128>, now: u128) -> nat
    decreases stamps.len(),
{
    if stamps.len() > 0 && age(now, stamps[0]) > RETENTION_NANOS {
        1 + stale_prefix(stamps.drop_first(), now)
    } else {
        0
    }
}

/// What is left of `stamps` at `now`: all from the first that is no older than the
/// retention.
pub open spec fn pruned(stamps: Seq<u128>, now: u128) -> Seq<u128> {
    stamps.skip(stale_prefix(stamps, now) as int)
}

/// How many of `stamps` are no older than `window` at `now`.
pub open spec fn count_within(stamps: Seq<u128>, now: u128, window: u128) -> nat
    decreases stamps.len(),
{
    if stamps.len() == 0 {
        0
    } else {
        count_within(stamps.drop_last(), now, window) + if age(now, stamps.last()) <= window {
            1nat
        } else {
            0nat
        }
    }
}

/// The times of the requests of the last fifteen minutes, oldest first.
#[derive(Debug)]
pub struct RequestWindow {
    stamps: VecDeque<u128>,
}

impl View for RequestWindow {
    type V = Seq<u128>;

    closed spec fn view(&self) -> Seq<u128> {
        self.stamps@
    }
}

/// The time that has passed at `now` since `t`.
pub fn elapsed_between(now: u128, t: u128) -> (a: u128)
    ensures
        a == age(now, t),
{
    if now >= t {
        now - t
    } else {
        0
    }
}

impl RequestWindow {
    /// A window without requests.
    pub fn new() -> (w: RequestWindow)
        ensures
            w@ == Seq::<u128>::empty(),
    {
        RequestWindow { stamps: VecDeque::with_capacity(2000) }
    }

    /// A window without requests that has no room set aside.
    pub fn empty() -> (w: RequestWindow)
        ensures
            w@ == Seq::<u128>::empty(),
    {
        RequestWindow { stamps: VecDeque::new() }
    }

    /// The number of request times that are kept.
    pub fn len(&self) -> (n: usize)
        ensures
            n == self@.len(),
    {
        self.stamps.len()
    }

    /// Drops the request times at the front that are older than the retention.
    pub fn prune(&mut self, now: u128)
        ensures
            final(self)@ == pruned(old(self)@, now),
            final(self)@.len() <= old(self)@.len(),
    {
        proof {
            lemma_pruned_is_suffix(self.stamps@, now);
        }
        while self.stamps.len() > 0 && elapsed_between(now, self.stamps[0]) > RETENTION_NANOS
            invariant
                pruned(self.stamps@, now) == pruned(old(self).stamps@, now),
            decreases self.stamps@.len(),
        {
            let ghost before = self.stamps@;
            self.stamps.pop_front();
            proof {
                let rest = before.drop_first();
                assert(self.stamps@ =~= rest);
                assert(age(now, before[0]) > RETENTION_NANOS);
                assert(stale_prefix(before, now) == 1 + stale_prefix(rest, now));
                lemma_pruned_is_suffix(rest, now);
                assert(pruned(rest, now) =~= pruned(before, now));
            }
        }
        assert(self.stamps@.skip(0) =~= self.stamps@);
    }

    /// Notes a request at `now`, after dropping what is older than the retention.
    pub fn record(&mut self, now: u128)
        ensures
            final(self)@ == pruned(old(self)@, now).push(now),
            final(self)@.len() <= old(self)@.len() + 1,
            final(self)@.len() <= usize::MAX,
    {
        self.prune(now);
        self.stamps.push_back(now);
        proof {
            assert(self.stamps.len() == self.stamps@.len());
        }
    }

    /// Counts the requests that are no older than `window` at `now`, after dropping what
    /// is older than the retention.
    pub fn count_in(&mut self, now: u128, window: u128) -> (n: u64)
        ensures
            final(self)@ == pruned(old(self)@, now),
            final(self)@.len() <= old(self)@.len(),
            n == count_within(final(self)@, now, window),
            n <= final(self)@.len(),
    {
        self.prune(now);
        let mut n: u64 = 0;
        let mut i: usize = 0;
        while i < self.stamps.len()
            invariant
                i <= self.stamps@.len(),
                n == count_within(self.stamps@.take(i as int), now, window),
                n <= i,
            decreases self.stamps@.len() - i,
        {
            proof {
                assert(self.stamps@.take(i + 1).drop_last() =~= self.stamps@.take(i as int));
            }
            if elapsed_between(now, self.stamps[i]) <= window {
                n += 1;
            }
            i += 1;
        }
        assert(self.stamps@.take(self.stamps@.len() as int) =~= self.stamps@);
        n
    }
}

/// The requests of a service: how many there were in all, and the times of those of
/// the last fifteen minutes. No more times are kept than requests were counted.
#[derive(Debug)]
pub struct RequestLog {
    total: u64,
    window: RequestWindow,
}

impl RequestLog {
    /// The number of requests that were counted.
    pub closed spec fn total(&self) -> u64 {
        self.total
    }

    /// The request times that are kept, oldest first.
    pub closed spec fn stamps(&self) -> Seq<u128> {
        self.window@
    }

    #[verifier::type_invariant]
    spec fn every_kept_time_was_counted(&self) -> bool {
        self.window@.len() <= self.total
    }

    /// A log without requests.
    pub fn new() -> (log: RequestLog)
        ensures
            log.total() == 0,
            log.stamps() == Seq::<u128>::empty(),
    {
        RequestLog { total: 0, window: RequestWindow::new() }
    }

    /// Counts a request at `now`: one more in all, and its time at the end of the
    /// window, from which the times older than the retention are gone.
    pub fn note(&mut self, now: u128)
        ensures
            final(self).total() == bump(old(self).total()),
            final(self).stamps() == pruned(old(self).stamps(), now).push(now),
            final(self).stamps().len() <= final(self).total(),
    {
        proof {
            use_type_invariant(&*self);
        }
        let mut window = RequestWindow::empty();
        core::mem::swap(&mut self.window, &mut window);
        window.record(now);
        self.total = bumped(self.total);
        self.window = window;
    }

    /// Counts the requests that are no older than `window` at `now`, after dropping what
    /// is older than the retention. No request is counted in all by this.
    pub fn count_in(&mut self, now: u128, window: u128) -> (n: u64)
        ensures
            final(self).total() == old(self).total(),
            final(self).stamps() == pruned(old(self).stamps(), now),
            n == count_within(final(self).stamps(), now, window),
            n <= final(self).stamps().len(),
            final(self).stamps().len() <= final(self).total(),
    {
        proof {
            use_type_invariant(&*self);
        }
        let mut kept = RequestWindow::empty();
        core::mem::swap(&mut self.window, &mut kept);
        let n = kept.count_in(now, window);
        self.window = kept;
        n
    }

    /// The number of requests that were counted, which is no less than the number of
    /// request times that are kept.
    pub fn total_count(&self) -> (n: u64)
        ensures
            n == self.total(),
            self.stamps().len() <= n,
    {
        proof {
            use_type_invariant(self);
        }
        self.total
    }
}

/// No more requests are counted than are kept.
pub proof fn lemma_count_bounded(stamps: Seq<u128>, now: u128, window: u128)
    ensures
        count_within(stamps, now, window) <= stamps.len(),
    decreases stamps.len(),
{
    if stamps.len() > 0 {
        lemma_count_bounded(stamps.drop_last(), now, window);
    }
}

/// A longer window counts no fewer requests.
pub proof fn lemma_count_monotone(stamps: Seq<u128>, now: u128, shorter: u128, longer: u128)
    requires
        shorter <= longer,
    ensures
        count_within(stamps, now, shorter) <= count_within(stamps, now, longer),
    decreases stamps.len(),
{
    if stamps.len() > 0 {
        lemma_count_monotone(stamps.drop_last(), now, shorter, longer);
    }
}

/// Where every request is no older than the window, all are counted.
pub proof fn lemma_count_all(stamps: Seq<u128>, now: u128, window: u128)
    requires
        forall|i: int| 0 <= i < stamps.len() ==> age(now, #[trigger] stamps[i]) <= window,
    ensures
        count_within(stamps, now, window) == stamps.len(),
    decreases stamps.len(),
{
    if stamps.len() > 0 {
        let rest = stamps.drop_last();
        assert forall|i: int| 0 <= i < rest.len() implies age(now, #[trigger] rest[i])
            <= window by {
            assert(rest[i] == stamps[i]);
        }
        lemma_count_all(rest, now, window);
    }
}

/// What is left after pruning is what was there without some of its front.
pub proof fn lemma_pruned_is_suffix(stamps: Seq<u128>, now: u128)
    ensures
        stale_prefix(stamps, now) <= stamps.len(),
        pruned(stamps, now).len() == stamps.len() - stale_prefix(stamps, now),
        forall|i: int|
            0 <= i < pruned(stamps, now).len() ==> #[trigger] pruned(stamps, now)[i] == stamps[i
                + stale_prefix(stamps, now)],
        forall|i: int| 0 <= i < stale_prefix(stamps, now) ==> age(now, #[trigger] stamps[i])
            > RETENTION_NANOS,
        pruned(stamps, now).len() > 0 ==> age(now, pruned(stamps, now)[0]) <= RETENTION_NANOS,
    decreases stamps.len(),
{
    if stamps.len() > 0 && age(now, stamps[0]) > RETENTION_NANOS {
        let rest = stamps.drop_first();
        lemma_pruned_is_suffix(rest, now);
        assert forall|i: int| 0 <= i < stale_prefix(stamps, now) implies age(
            now,
            #[trigger] stamps[i],
        ) > RETENTION_NANOS by {
            if i > 0 {
                assert(stamps[i] == rest[i - 1]);
            }
        }
        assert(pruned(stamps, now) =~= pruned(rest, now));
    }
}

/// Pruning twice at one moment is pruning once.
pub proof fn lemma_pruned_twice(stamps: Seq<u128>, now: u128)
    ensures
        pruned(pruned(stamps, now), now) == pruned(stamps, now),
{
    lemma_pruned_is_suffix(stamps, now);
    let once = pruned(stamps, now);
    assert(stale_prefix(once, now) == 0);
    assert(once.skip(0) =~= once);
}

/// Requests that are all within a window no longer than the retention are all kept and
/// all counted, in that window and in every longer one.
pub proof fn lemma_recent_requests_counted(
    stamps: Seq<u128>,
    now: u128,
    window: u128,
    longer: u128,
)
    requires
        window <= RETENTION_NANOS,
        window <= longer,
        forall|i: int| 0 <= i < stamps.len() ==> age(now, #[trigger] stamps[i]) <= window,
    ensures
        pruned(stamps, now) == stamps,
        count_within(pruned(stamps, now), now, window) == stamps.len(),
        count_within(pruned(stamps, now), now, longer) == stamps.len(),
{
    lemma_pruned_is_suffix(stamps, now);
    if stale_prefix(stamps, now) > 0 {
        assert(age(now, stamps[0]) > RETENTION_NANOS);
    }
    assert(pruned(stamps, now) =~= stamps);
    lemma_count_all(stamps, now, window);
    lemma_count_monotone(stamps, now, window, longer);
    lemma_count_bounded(stamps, now, longer);
}

} // verus!
