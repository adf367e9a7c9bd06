//! Properties of admission decisions over sequences of requests.
use vstd::prelude::*;

use crate::limiter::{decide_spec, headers, window_end, Decision};
use crate::store::{query_of, seconds_left, Entries, Entry};

verus! {

/// The decisions for requests from `key` at the instants `times`, one after
/// the other, starting from the store contents `m`.
pub open spec fn run(
    max_requests: usize,
    interval: u64,
    m: Entries,
    key: Seq<char>,
    times: Seq<u64>,
) -> Seq<Decision>
    decreases times.len(),
{
    if times.len() == 0 {
        Seq::empty()
    } else {
        let step = decide_spec(max_requests, interval, m, key, times[0]);
        seq![step.1] + run(max_requests, interval, step.0, key, times.drop_first())
    }
}

/// How many of the decisions admit.
pub open spec fn admitted(ds: Seq<Decision>) -> nat
    decreases ds.len(),
{
    if ds.len() == 0 {
        0
    } else {
        (if ds[0] is Admit { 1nat } else { 0nat }) + admitted(ds.drop_first())
    }
}

/// Every counter in the store is within the quota.
pub open spec fn within_quota(m: Entries, max_requests: usize) -> bool {
    forall|k: Seq<char>| #[trigger] m.contains_key(k) ==> m[k].remaining <= max_requests
}

/// Requests against a live window holding `remaining`: the first `remaining`
/// are admitted with the count going down by one, the rest rejected.
proof fn lemma_live_run(
    max_requests: usize,
    interval: u64,
    m: Entries,
    key: Seq<char>,
    times: Seq<u64>,
)
    requires
        m.contains_key(key),
        forall|i: int| 0 <= i < times.len() ==> times[i] < m[key].expiry,
    ensures
        ({
            let ds = run(max_requests, interval, m, key, times);
            let r = m[key].remaining as int;
            let end = m[key].expiry;
            &&& ds.len() == times.len()
            &&& forall|i: int|
                0 <= i < times.len() ==> #[trigger] ds[i] == if i < r {
                    Decision::Admit(
                        headers(max_requests, (r - i) as usize, seconds_left(end, times[i])),
                    )
                } else {
                    Decision::Reject(headers(max_requests, 0, seconds_left(end, times[i])))
                }
            &&& admitted(ds) == if times.len() < r { times.len() as int } else { r }
        }),
    decreases times.len(),
{
    if times.len() > 0 {
        let step = decide_spec(max_requests, interval, m, key, times[0]);
        let rest = times.drop_first();
        let m2 = step.0;
        assert(m2.contains_key(key) && m2[key].expiry == m[key].expiry);
        assert(forall|i: int| 0 <= i < rest.len() ==> rest[i] == times[i + 1]);
        lemma_live_run(max_requests, interval, m2, key, rest);
        let ds = run(max_requests, interval, m, key, times);
        let tail = run(max_requests, interval, m2, key, rest);
        assert(ds.drop_first() =~= tail);
        assert forall|i: int| 0 < i < times.len() implies #[trigger] ds[i] == tail[i - 1] by {}
    }
}

/// Requests from a key with no live window, all within the window that the
/// first of them opens.
proof fn lemma_fresh_run(
    max_requests: usize,
    interval: u64,
    m: Entries,
    key: Seq<char>,
    times: Seq<u64>,
)
    requires
        times.len() > 0,
        query_of(m, key, times[0]) is None,
        forall|i: int|
            0 <= i < times.len() ==> times[0] <= #[trigger] times[i] < window_end(
                times[0],
                interval,
            ),
    ensures
        ({
            let ds = run(max_requests, interval, m, key, times);
            &&& ds.len() == times.len()
            &&& forall|i: int|
                0 <= i < times.len() ==> #[trigger] ds[i].headers_of().remaining == if i
                    < max_requests {
                    max_requests - i
                } else {
                    0
                } && (ds[i] is Admit <==> i < max_requests)
        }),
{
    let step = decide_spec(max_requests, interval, m, key, times[0]);
    let rest = times.drop_first();
    let m2 = step.0;
    assert(forall|i: int| 0 <= i < rest.len() ==> rest[i] == times[i + 1]);
    lemma_live_run(max_requests, interval, m2, key, rest);
    let ds = run(max_requests, interval, m, key, times);
    let tail = run(max_requests, interval, m2, key, rest);
    assert(ds.drop_first() =~= tail);
    assert forall|i: int| 0 < i < times.len() implies #[trigger] ds[i] == tail[i - 1] by {}
}

/// Within one window, a key's first `max_requests` requests are all admitted,
/// and the reported remaining count goes down by one from each to the next.
pub proof fn lemma_admissions_count_down(
    max_requests: usize,
    interval: u64,
    m: Entries,
    key: Seq<char>,
    times: Seq<u64>,
)
    requires
        0 < times.len() <= max_requests,
        query_of(m, key, times[0]) is None,
        forall|i: int|
            0 <= i < times.len() ==> times[0] <= #[trigger] times[i] < window_end(
                times[0],
                interval,
            ),
    ensures
        ({
            let ds = run(max_requests, interval, m, key, times);
            &&& forall|i: int| 0 <= i < times.len() ==> #[trigger] ds[i] is Admit
            &&& ds[0].headers_of().remaining == max_requests
            &&& forall|i: int|
                0 < i < times.len() ==> #[trigger] ds[i].headers_of().remaining + 1 == ds[i
                    - 1].headers_of().remaining
        }),
{
    lemma_fresh_run(max_requests, interval, m, key, times);
    let ds = run(max_requests, interval, m, key, times);
    assert forall|i: int| 0 < i < times.len() implies #[trigger] ds[i].headers_of().remaining + 1
        == ds[i - 1].headers_of().remaining by {
        assert(ds[i].headers_of().remaining == max_requests - i);
        assert(ds[i - 1].headers_of().remaining == max_requests - (i - 1));
    }
    assert forall|i: int| 0 <= i < times.len() implies #[trigger] ds[i] is Admit by {
        assert(ds[i].headers_of().remaining == max_requests - i);
    }
    assert(ds[0].headers_of().remaining == max_requests);
}

/// Within one window, the request that follows a key's first `max_requests`
/// is rejected with a remaining count of zero.
pub proof fn lemma_quota_exceeded(
    max_requests: usize,
    interval: u64,
    m: Entries,
    key: Seq<char>,
    times: Seq<u64>,
)
    requires
        times.len() == max_requests + 1,
        query_of(m, key, times[0]) is None,
        forall|i: int|
            0 <= i < times.len() ==> times[0] <= #[trigger] times[i] < window_end(
                times[0],
                interval,
            ),
    ensures
        ({
            let ds = run(max_requests, interval, m, key, times);
            &&& ds[max_requests as int] is Reject
            &&& ds[max_requests as int].headers_of().remaining == 0
        }),
{
    lemma_fresh_run(max_requests, interval, m, key, times);
    let ds = run(max_requests, interval, m, key, times);
    assert(ds[max_requests as int].headers_of().remaining == 0);
}

/// Once a key's window has run its course, its next request opens a fresh
/// window: it is admitted with the full quota reported, without any removal.
pub proof fn lemma_window_expires(
    max_requests: usize,
    interval: u64,
    m: Entries,
    key: Seq<char>,
    start: u64,
    now: u64,
)
    requires
        max_requests > 0,
        m.contains_key(key),
        m[key].expiry == window_end(start, interval),
        now >= start + interval,
    ensures
        ({
            let step = decide_spec(max_requests, interval, m, key, now);
            &&& step.1 == Decision::Admit(headers(max_requests, max_requests, interval))
            &&& step.0[key] == Entry {
                remaining: (max_requests - 1) as usize,
                expiry: window_end(now, interval),
            }
        }),
{
}

/// However many requests from one key come in a window that holds
/// `remaining`, exactly the first `min(count, remaining)` are admitted and the
/// rest rejected.
pub proof fn lemma_no_over_admission(
    max_requests: usize,
    interval: u64,
    m: Entries,
    key: Seq<char>,
    times: Seq<u64>,
)
    requires
        m.contains_key(key),
        forall|i: int| 0 <= i < times.len() ==> #[trigger] times[i] < m[key].expiry,
    ensures
        ({
            let ds = run(max_requests, interval, m, key, times);
            let r = m[key].remaining as int;
            &&& ds.len() == times.len()
            &&& forall|i: int| 0 <= i < times.len() ==> (#[trigger] ds[i] is Admit <==> i < r)
            &&& admitted(ds) == if times.len() < r { times.len() as int } else { r }
        }),
{
    lemma_live_run(max_requests, interval, m, key, times);
}

/// Every decision reports the quota as its limit and a remaining count within
/// it, and keeps every counter of the store within the quota.
pub proof fn lemma_headers_within_quota(
    max_requests: usize,
    interval: u64,
    m: Entries,
    key: Seq<char>,
    now: u64,
)
    requires
        within_quota(m, max_requests),
    ensures
        ({
            let step = decide_spec(max_requests, interval, m, key, now);
            let h = step.1.headers_of();
            &&& h.limit == max_requests
            &&& 0 <= h.remaining <= max_requests
            &&& h.reset >= 0
            &&& within_quota(step.0, max_requests)
        }),
{
}

/// After a key's entry is removed, its next request opens a fresh window.
pub proof fn lemma_removal_restarts(
    max_requests: usize,
    interval: u64,
    m: Entries,
    key: Seq<char>,
    now: u64,
)
    requires
        max_requests > 0,
    ensures
        ({
            let step = decide_spec(max_requests, interval, m.remove(key), key, now);
            &&& step.1 == Decision::Admit(headers(max_requests, max_requests, interval))
            &&& step.0[key] == Entry {
                remaining: (max_requests - 1) as usize,
                expiry: window_end(now, interval),
            }
        }),
{
}

} // verus!
