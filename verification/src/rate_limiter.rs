//! A request counter over aligned one-minute windows.
use crate::utils::{checked_instant_to_seconds, epoch_offset, system_now};
use vstd::prelude::*;

verus! {

/// Length of one counting window, in seconds.
pub const WINDOW_SECONDS: u64 = 60;

/// The start of the minute that holds second `secs`.
pub open spec fn bucket_of(secs: int) -> int {
    secs - secs % 60
}

/// One minute-bucket: when it began and how many requests fell into it.
#[derive(Debug)]
pub struct RateLimit {
    pub current_window: u64,
    pub requests: u64,
}

/// The start of the minute that holds second `secs`.
pub fn time_bucket(secs: u64) -> (bucket: u64)
    ensures
        bucket == bucket_of(secs as int),
        bucket % 60 == 0,
        bucket <= secs < bucket + 60,
{
    secs - secs % WINDOW_SECONDS
}

/// The start of the present minute. A clock that reads before the epoch
/// counts as the epoch itself.
pub fn get_time_bucket() -> (bucket: u64)
    ensures
        exists|now: std::time::SystemTime| bucket == #[trigger] reading_bucket(now),
        bucket % 60 == 0,
{
    let now = system_now();
    let bucket = match checked_instant_to_seconds(now) {
        Some(secs) => time_bucket(secs),
        None => 0,
    };
    assert(bucket == reading_bucket(now));
    bucket
}

impl RateLimit {
    /// The counter after one more request, in the minute at `now_bucket`.
    pub open spec fn recorded(self, now_bucket: u64) -> RateLimit {
        if now_bucket > self.current_window {
            RateLimit { current_window: now_bucket, requests: 1 }
        } else {
            RateLimit { requests: (self.requests + 1) as u64, ..self }
        }
    }

    /// An empty counter whose window is the minute that begins at `bucket`.
    pub fn starting_at(bucket: u64) -> (limit: Self)
        ensures
            limit == (RateLimit { current_window: bucket, requests: 0 }),
    {
        RateLimit { current_window: bucket, requests: 0 }
    }

    /// An empty counter for the present minute.
    pub fn new() -> (limit: Self)
        ensures
            exists|now: std::time::SystemTime|
                limit == (RateLimit { current_window: #[trigger] reading_bucket(now), requests: 0 }),
            limit.requests == 0,
            limit.current_window % 60 == 0,
    {
        RateLimit::starting_at(get_time_bucket())
    }

    /// Counts one request that arrives in the minute beginning at
    /// `now_bucket`: a later minute than the counter's own starts a fresh
    /// count, any other adds to the running one.
    pub fn record_at(&mut self, now_bucket: u64)
        requires
            old(self).requests < u64::MAX,
        ensures
            *final(self) == old(self).recorded(now_bucket),
    {
        if now_bucket > self.current_window {
            self.current_window = now_bucket;
            self.requests = 0;
        }
        self.requests += 1;
    }

    /// Counts one request that arrives now: in the minute in which the
    /// clock's reading lies.
    pub fn update_request_count(&mut self)
        requires
            old(self).requests < u64::MAX,
        ensures
            exists|now: std::time::SystemTime|
                *final(self) == old(self).recorded(#[trigger] reading_bucket(now)),
    {
        let now_bucket = get_time_bucket();
        self.record_at(now_bucket);
    }
}

/// The counter after `n` requests that all arrive in the minute beginning
/// at `bucket`.
pub open spec fn after_requests(start: RateLimit, bucket: u64, n: nat) -> RateLimit
    decreases n,
{
    if n == 0 {
        start
    } else {
        after_requests(start, bucket, (n - 1) as nat).recorded(bucket)
    }
}

/// Within one minute the counter counts: after the `n`-th request of a
/// minute that is newer than the counter's window, the count is `n`,
/// whatever it was in the minute before.
pub proof fn lemma_window_counts(start: RateLimit, bucket: u64, n: nat)
    requires
        bucket > start.current_window,
        1 <= n <= u64::MAX,
    ensures
        after_requests(start, bucket, n) == (RateLimit { current_window: bucket, requests: n as u64 }),
    decreases n,
{
    if n == 1 {
        assert(after_requests(start, bucket, 0) == start);
    } else {
        lemma_window_counts(start, bucket, (n - 1) as nat);
    }
}

/// A counter that starts empty in a minute counts that minute's requests
/// from one: after the `n`-th the count is `n`.
pub proof fn lemma_fresh_window_counts(bucket: u64, n: nat)
    requires
        n <= u64::MAX,
    ensures
        after_requests(RateLimit { current_window: bucket, requests: 0 }, bucket, n) == (RateLimit {
            current_window: bucket,
            requests: n as u64,
        }),
    decreases n,
{
    if n > 0 {
        lemma_fresh_window_counts(bucket, (n - 1) as nat);
    }
}

/// Of the requests of one minute exactly the first `ceiling` stay within
/// a ceiling: the `n`-th request is over the limit if and only if
/// `n > ceiling`.
pub proof fn lemma_over_limit(start: RateLimit, bucket: u64, n: nat, ceiling: u64)
    requires
        bucket > start.current_window,
        1 <= n <= u64::MAX,
    ensures
        after_requests(start, bucket, n).requests > ceiling <==> n > ceiling,
{
    lemma_window_counts(start, bucket, n);
}

/// At the next minute boundary the count starts again: the first request
/// of a newer minute is request number one.
pub proof fn lemma_window_resets(limit: RateLimit, bucket: u64)
    requires
        bucket > limit.current_window,
    ensures
        limit.recorded(bucket) == (RateLimit { current_window: bucket, requests: 1 }),
{
}

/// The start of the minute in which a clock reading lies. A reading before
/// the epoch counts as the epoch itself.
pub open spec fn reading_bucket(now: std::time::SystemTime) -> u64 {
    match epoch_offset(now) {
        Some(parts) => bucket_of(parts.0 as int) as u64,
        None => 0,
    }
}

} // verus!
