//! The admission decision: query the store, then create, reject or consume.
use vstd::prelude::*;

use crate::memory::MemoryStore;
use crate::store::{
    consume_state, query_of, ttl_of, Consumed, Entries, Entry, StoreError, WindowStore,
};

verus! {

/// The values of the three rate-limit headers of a response.
#[derive(Clone, Copy, Debug, PartialEq, Eq, Structural)]
pub struct RateLimitHeaders {
    pub limit: usize,
    pub remaining: usize,
    pub reset: u64,
}

/// Outcome of one admission decision.
#[derive(Clone, Copy, Debug, PartialEq, Eq, Structural)]
pub enum Decision {
    /// Forward the request; annotate its response with these headers.
    Admit(RateLimitHeaders),
    /// Answer "too many requests" with these headers.
    Reject(RateLimitHeaders),
}

impl Decision {
    pub open spec fn headers_of(self) -> RateLimitHeaders {
        match self {
            Decision::Admit(h) => h,
            Decision::Reject(h) => h,
        }
    }
}

/// Why no decision could be made.
#[derive(Clone, Copy, Debug, PartialEq, Eq, Structural)]
pub enum AdmissionError {
    /// No client key could be derived from the request.
    IdentifierUnavailable,
    /// The store failed.
    Store(StoreError),
}

/// End of a window that starts at `now`, saturating at the largest instant.
pub open spec fn window_end(now: u64, interval: u64) -> u64 {
    if now + interval <= u64::MAX {
        (now + interval) as u64
    } else {
        u64::MAX
    }
}

pub open spec fn headers(limit: usize, remaining: usize, reset: u64) -> RateLimitHeaders {
    RateLimitHeaders { limit, remaining, reset }
}

/// The decision for a request from `key` at `now`, and the store contents after it.
///
/// A key without a live window gets a fresh one, with this request's unit
/// already taken; a live window with nothing left rejects; otherwise one unit is
/// taken and the count before it is reported.
pub open spec fn decide_spec(
    max_requests: usize,
    interval: u64,
    m: Entries,
    key: Seq<char>,
    now: u64,
) -> (Entries, Decision) {
    match query_of(m, key, now) {
        None => {
            let end = window_end(now, interval);
            if max_requests == 0 {
                (
                    m.insert(key, Entry { remaining: 0, expiry: end }),
                    Decision::Reject(headers(0, 0, interval)),
                )
            } else {
                (
                    m.insert(key, Entry { remaining: (max_requests - 1) as usize, expiry: end }),
                    Decision::Admit(headers(max_requests, max_requests, interval)),
                )
            }
        },
        Some(c) => {
            let reset = ttl_of(m, key, now)->Some_0;
            if c == 0 {
                (m, Decision::Reject(headers(max_requests, 0, reset)))
            } else {
                (
                    consume_state(m, key, now),
                    Decision::Admit(headers(max_requests, c, reset)),
                )
            }
        },
    }
}

/// Fixed-window rate limiter: at most `max_requests` admissions per client key
/// in each window of `interval` seconds.
pub struct RateLimiter<S: WindowStore> {
    pub interval: u64,
    pub max_requests: usize,
    pub store: S,
}

impl<S: WindowStore> RateLimiter<S> {
    /// A limiter over `store`, with a zero interval and a zero quota until set.
    pub fn new(store: S) -> (r: Self)
        ensures
            r.interval == 0,
            r.max_requests == 0,
            r.store == store,
    {
        RateLimiter { interval: 0, max_requests: 0, store }
    }

    /// Sets the window length in seconds.
    pub fn with_interval(self, interval: u64) -> (r: Self)
        ensures
            r.interval == interval,
            r.max_requests == self.max_requests,
            r.store == self.store,
    {
        RateLimiter { interval, ..self }
    }

    /// Sets the number of requests admitted per window.
    pub fn with_max_requests(self, max_requests: usize) -> (r: Self)
        ensures
            r.interval == self.interval,
            r.max_requests == max_requests,
            r.store == self.store,
    {
        RateLimiter { max_requests, ..self }
    }

    /// Creates a fresh window for `key` at `now` and decides on that basis.
    fn open_window(&mut self, key: &String, now: u64) -> (r: Result<Decision, AdmissionError>)
        requires
            old(self).store.wf(),
            query_of(old(self).store.entries(), key@, now) is None,
        ensures
            final(self).store.wf(),
            final(self).interval == old(self).interval,
            final(self).max_requests == old(self).max_requests,
            final(self).store.reliable() == old(self).store.reliable(),
            old(self).store.reliable() ==> r is Ok,
            r is Err ==> r->Err_0 is Store,
            r is Ok ==> (final(self).store.entries(), r->Ok_0) == decide_spec(
                old(self).max_requests,
                old(self).interval,
                old(self).store.entries(),
                key@,
                now,
            ),
    {
        let end = now.saturating_add(self.interval);
        let max = self.max_requests;
        let remaining = if max == 0 { 0 } else { max - 1 };
        match self.store.create(key, remaining, end) {
            Err(e) => Err(AdmissionError::Store(e)),
            Ok(()) => {
                if max == 0 {
                    Ok(Decision::Reject(RateLimitHeaders { limit: 0, remaining: 0, reset: self.interval }))
                } else {
                    Ok(Decision::Admit(RateLimitHeaders { limit: max, remaining: max, reset: self.interval }))
                }
            },
        }
    }

    /// Rejects the request from `key`, reporting the seconds left of its window,
    /// or the whole interval where the store has none.
    fn reject(&self, key: &String, now: u64) -> (r: Result<Decision, AdmissionError>)
        requires
            self.store.wf(),
        ensures
            self.store.reliable() ==> r is Ok,
            r is Err ==> r->Err_0 is Store,
            r is Ok ==> r->Ok_0 == Decision::Reject(
                headers(
                    self.max_requests,
                    0,
                    match ttl_of(self.store.entries(), key@, now) {
                        Some(t) => t,
                        None => self.interval,
                    },
                ),
            ),
    {
        let reset = match self.store.time_to_live(key, now) {
            Err(e) => {
                return Err(AdmissionError::Store(e));
            },
            Ok(Some(t)) => t,
            Ok(None) => self.interval,
        };
        Ok(Decision::Reject(RateLimitHeaders { limit: self.max_requests, remaining: 0, reset }))
    }

    /// Decides whether the request from `key` (none where no key could be
    /// derived) at instant `now` is admitted, and updates the store.
    pub fn decide(&mut self, key: Option<String>, now: u64) -> (r: Result<Decision, AdmissionError>)
        requires
            old(self).store.wf(),
        ensures
            final(self).store.wf(),
            final(self).interval == old(self).interval,
            final(self).max_requests == old(self).max_requests,
            key is None <==> r == Err::<Decision, AdmissionError>(
                AdmissionError::IdentifierUnavailable,
            ),
            final(self).store.reliable() == old(self).store.reliable(),
            key is Some && old(self).store.reliable() ==> r is Ok,
            key is None ==> final(self).store.entries() == old(self).store.entries(),
            key is Some && r is Ok ==> (final(self).store.entries(), r->Ok_0) == decide_spec(
                old(self).max_requests,
                old(self).interval,
                old(self).store.entries(),
                key->Some_0@,
                now,
            ),
    {
        let key = match key {
            None => {
                return Err(AdmissionError::IdentifierUnavailable);
            },
            Some(k) => k,
        };
        let max = self.max_requests;
        match self.store.query(&key, now) {
            Err(e) => Err(AdmissionError::Store(e)),
            Ok(None) => self.open_window(&key, now),
            Ok(Some(0)) => self.reject(&key, now),
            Ok(Some(_)) => {
                match self.store.try_consume(&key, now) {
                    Err(e) => Err(AdmissionError::Store(e)),
                    Ok(Consumed::NotFound) => self.open_window(&key, now),
                    Ok(Consumed::Exhausted) => self.reject(&key, now),
                    Ok(Consumed::Admitted(before)) => {
                        match self.store.time_to_live(&key, now) {
                            Err(e) => Err(AdmissionError::Store(e)),
                            Ok(ttl) => {
                                let reset = match ttl {
                                    Some(t) => t,
                                    None => self.interval,
                                };
                                Ok(Decision::Admit(RateLimitHeaders { limit: max, remaining: before, reset }))
                            },
                        }
                    },
                }
            },
        }
    }
}

impl Default for RateLimiter<MemoryStore> {
    /// A limiter over an empty in-process store, with a zero interval and a
    /// zero quota until set.
    fn default() -> (r: Self)
        ensures
            r.interval == 0,
            r.max_requests == 0,
            r.store.wf(),
            r.store.reliable(),
            r.store.entries() == Entries::empty(),
    {
        RateLimiter::new(MemoryStore::new())
    }
}

} // verus!
