//! The refreshable cache: the latest snapshot, when it was installed, and
//! for how long it counts as fresh.
//!
//! Time is a number of nanoseconds since the Unix epoch. The cache never
//! reads a clock: every decision is a function of the cache and of the
//! moment that the caller gives.

use vstd::prelude::*;
use chrono::DateTime;
use crate::data::{refreshed_through, Data};
use crate::error::FetchError;
use crate::scrapers::Response;

verus! {

/// Why the cache has nothing to hand out.
#[derive(Debug, Clone, Copy, PartialEq, Eq, Structural)]
pub enum CacheError {
    /// No snapshot was ever installed.
    Empty,
}

/// The date and time of a moment in UTC, as text.
pub uninterp spec fn spec_timestamp_text(nanos: int) -> Seq<char>;

/// `chrono::DateTime::from_timestamp_nanos`, written out by its `Display`:
/// the date and time of the moment in UTC. The text is a function of the
/// moment alone.
#[verifier::external_body]
fn timestamp_text(nanos: i64) -> (text: String)
    ensures
        text@ == spec_timestamp_text(nanos as int),
{
    DateTime::from_timestamp_nanos(nanos).to_string()
}

/// The number of nanoseconds in a second.
pub const NANOS_PER_SECOND: i64 = 1_000_000_000;

/// The latest snapshot with its time of installation and its time to live.
#[derive(Debug)]
pub struct Cache {
    data: Option<Data>,
    last_updated: i64,
    ttl: u32,
}

impl Clone for Cache {
    fn clone(&self) -> (copy: Self)
        ensures
            copy.snapshot().deep_view() == self.snapshot().deep_view(),
            copy.updated_at() == self.updated_at(),
            copy.ttl_seconds() == self.ttl_seconds(),
    {
        let data = match &self.data {
            Some(held) => Some(held.clone()),
            None => None,
        };
        Cache { data, last_updated: self.last_updated, ttl: self.ttl }
    }
}

impl Cache {
    /// The snapshot that the cache holds.
    pub closed spec fn snapshot(&self) -> Option<Data> {
        self.data
    }

    /// The moment at which the snapshot was installed; the epoch for a cache
    /// that never held one.
    pub closed spec fn updated_at(&self) -> int {
        self.last_updated as int
    }

    /// The time to live, in seconds.
    pub closed spec fn ttl_seconds(&self) -> nat {
        self.ttl as nat
    }

    /// Whether the cache is due for a refresh at the moment `now`: it holds
    /// no snapshot, or its snapshot is as old as the time to live or older.
    pub open spec fn spec_needs_update(&self, now: int) -> bool {
        self.snapshot().is_none() || now - self.updated_at() >= self.ttl_seconds()
            * NANOS_PER_SECOND
    }

    /// An empty cache with the given time to live in seconds.
    pub fn new(ttl: u32) -> (cache: Cache)
        ensures
            cache.snapshot().is_none(),
            cache.updated_at() == 0,
            cache.ttl_seconds() == ttl,
            forall|now: int| cache.spec_needs_update(now),
    {
        Cache { data: None, last_updated: 0, ttl }
    }

    /// The snapshot, if one was ever installed. Never waits for anything.
    pub fn get_data(&self) -> (data: Result<&Data, CacheError>)
        ensures
            match data {
                Ok(held) => self.snapshot() == Some(*held),
                Err(error) => self.snapshot().is_none() && error == CacheError::Empty,
            },
    {
        match &self.data {
            Some(held) => Ok(held),
            None => Err(CacheError::Empty),
        }
    }

    /// Whether the cache is due for a refresh at the moment `now`.
    pub fn needs_update(&self, now: i64) -> (due: bool)
        ensures
            due == self.spec_needs_update(now as int),
    {
        if self.data.is_none() {
            return true;
        }
        let age: i128 = now as i128 - self.last_updated as i128;
        let seconds: i128 = self.ttl as i128;
        assert(0 <= seconds * 1_000_000_000 <= 0xffff_ffff * 1_000_000_000) by (nonlinear_arith)
            requires
                0 <= seconds <= 0xffff_ffff,
        ;
        let limit: i128 = seconds * 1_000_000_000;
        age >= limit
    }

    /// Installs a snapshot as of the moment `now`. Snapshot and time change
    /// together; the time to live stays.
    pub fn set_data(&mut self, data: Data, now: i64)
        ensures
            final(self).snapshot() == Some(data),
            final(self).updated_at() == now,
            final(self).ttl_seconds() == old(self).ttl_seconds(),
    {
        self.data = Some(data);
        self.last_updated = now;
    }

    /// Ends a refresh at the moment `now`: a snapshot is installed, an error
    /// leaves the cache as it was and is handed back.
    pub fn install(&mut self, outcome: Result<Data, FetchError>, now: i64) -> (installed: Result<
        (),
        FetchError,
    >)
        ensures
            match outcome {
                Ok(data) => {
                    &&& installed.is_ok()
                    &&& final(self).snapshot() == Some(data)
                    &&& final(self).updated_at() == now
                    &&& final(self).ttl_seconds() == old(self).ttl_seconds()
                },
                Err(error) => installed == Err::<(), FetchError>(error) && *final(self) == *old(
                    self,
                ),
            },
    {
        match outcome {
            Ok(data) => {
                self.set_data(data, now);
                Ok(())
            },
            Err(error) => Err(error),
        }
    }

    /// What a refresh through `fetch` brings.
    ///
    /// The outcome is that of [`Data::fetch`].
    pub fn fetch_data<F: Fn(String) -> Response>(fetch: &F) -> (data: Result<Data, FetchError>)
        requires
            forall|url: String| call_requires(*fetch, (url,)),
        ensures
            refreshed_through(fetch, data),
    {
        Data::fetch(fetch)
    }

    /// Refreshes the cache through `fetch`, whatever its age: on success the
    /// new snapshot is installed as of the moment `now`, on failure the cache
    /// stays as it was.
    pub fn fetch<F: Fn(String) -> Response>(&mut self, fetch: &F, now: i64) -> (fetched: Result<
        (),
        FetchError,
    >)
        requires
            forall|url: String| call_requires(*fetch, (url,)),
        ensures
            match fetched {
                Ok(_) => {
                    &&& final(self).snapshot().is_some()
                    &&& refreshed_through(fetch, Ok(final(self).snapshot().unwrap()))
                    &&& final(self).updated_at() == now
                    &&& final(self).ttl_seconds() == old(self).ttl_seconds()
                },
                Err(error) => refreshed_through(fetch, Err(error)) && *final(self) == *old(self),
            },
    {
        let outcome = Data::fetch(fetch);
        self.install(outcome, now)
    }

    /// Makes sure that the cache is fresh at the moment `now`, the caller
    /// holding the cache for itself alone.
    ///
    /// A fresh cache is left alone and `fetch` is not called: it need not
    /// even be callable. A cache that is due is refreshed through `fetch`,
    /// once. On success the new snapshot is installed as of `now`; on
    /// failure the cache stays as it was and the error is handed back.
    pub fn ensure_fresh<F: Fn(String) -> Response>(&mut self, now: i64, fetch: &F) -> (fresh:
        Result<(), FetchError>)
        requires
            old(self).spec_needs_update(now as int) ==> forall|url: String|
                call_requires(*fetch, (url,)),
        ensures
            !old(self).spec_needs_update(now as int) ==> fresh.is_ok() && *final(self) == *old(
                self,
            ),
            old(self).spec_needs_update(now as int) ==> match fresh {
                Ok(_) => {
                    &&& final(self).snapshot().is_some()
                    &&& refreshed_through(fetch, Ok(final(self).snapshot().unwrap()))
                    &&& final(self).updated_at() == now
                    &&& final(self).ttl_seconds() == old(self).ttl_seconds()
                },
                Err(error) => refreshed_through(fetch, Err(error)) && *final(self) == *old(self),
            },
            fresh.is_ok() ==> final(self).snapshot().is_some(),
            fresh.is_ok() && final(self).ttl_seconds() > 0 ==> !final(self).spec_needs_update(
                now as int,
            ),
    {
        if !self.needs_update(now) {
            return Ok(());
        }
        let outcome = Data::fetch(fetch);
        self.install(outcome, now)
    }

    /// The moment of the last installation in UTC, as text; the epoch for a
    /// cache that never held a snapshot.
    pub fn get_last_update_as_string(&self) -> (text: String)
        ensures
            text@ == spec_timestamp_text(self.updated_at()),
    {
        timestamp_text(self.last_updated)
    }
}

/// A cache that holds no snapshot is due for a refresh at every moment. With
/// the contracts of [`Cache::new`] and [`Cache::get_data`]: a new cache is
/// due, and asking it for its snapshot gives [`CacheError::Empty`].
pub proof fn lemma_empty_is_due(cache: Cache, now: int)
    requires
        cache.snapshot().is_none(),
    ensures
        cache.spec_needs_update(now),
{
}

/// A cache that holds a snapshot is fresh from the moment of installation
/// for as long as the time to live, and due from then on.
pub proof fn lemma_fresh_until_elapsed(cache: Cache, now: int)
    requires
        cache.snapshot().is_some(),
        cache.updated_at() <= now,
    ensures
        cache.spec_needs_update(now) <==> now >= cache.updated_at() + cache.ttl_seconds()
            * NANOS_PER_SECOND,
{
}

/// Of the callers that found the cache due at one moment and then pass
/// through [`Cache::ensure_fresh`] one after the other, only the first
/// refreshes: the cache that it leaves behind is not due at that moment, nor
/// before the time to live has elapsed, so the others find nothing to do.
pub proof fn lemma_refreshed_is_fresh(cache: Cache, refreshed_at: int, now: int)
    requires
        cache.snapshot().is_some(),
        cache.updated_at() == refreshed_at,
        cache.ttl_seconds() > 0,
        refreshed_at <= now < refreshed_at + cache.ttl_seconds() * NANOS_PER_SECOND,
    ensures
        !cache.spec_needs_update(now),
{
}

/// The moment that a reading of a clock stands for, where the reading is in
/// nanoseconds since the Unix epoch, and missing where the clock is beyond
/// what 64 bits of them hold: the reading itself, or the last moment that 64
/// bits hold.
pub open spec fn spec_moment_of(reading: Option<i64>) -> i64 {
    match reading {
        Some(nanos) => nanos,
        None => i64::MAX,
    }
}

/// The moment that a reading of a clock stands for.
pub fn moment_of(reading: Option<i64>) -> (moment: i64)
    ensures
        moment == spec_moment_of(reading),
{
    match reading {
        Some(nanos) => nanos,
        None => i64::MAX,
    }
}


} // verus!
