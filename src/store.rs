//! Per-key window counters and the operations a store offers on them.
use vstd::prelude::*;

verus! {

/// Counter state of one client key: the requests still allowed in the current
/// window and the instant (in seconds) at which the window ends.
#[derive(Clone, Copy, Debug, PartialEq, Eq, Structural)]
pub struct Entry {
    pub remaining: usize,
    pub expiry: u64,
}

/// Result of an atomic check-and-decrement.
#[derive(Clone, Copy, Debug, PartialEq, Eq, Structural)]
pub enum Consumed {
    /// One unit was taken; carries the count as it was before the decrement.
    Admitted(usize),
    /// The key has a live window with nothing left.
    Exhausted,
    /// The key has no live window.
    NotFound,
}

/// Failure of a store backend.
#[derive(Clone, Copy, Debug, PartialEq, Eq, Structural)]
pub enum StoreError {
    Unavailable,
    Timeout,
    Protocol,
}

/// Store contents: every key maps to at most one entry.
pub type Entries = Map<Seq<char>, Entry>;

/// An entry is live while its window has not ended.
pub open spec fn is_live(e: Entry, now: u64) -> bool {
    now < e.expiry
}

pub open spec fn live_entry(m: Entries, key: Seq<char>, now: u64) -> bool {
    m.contains_key(key) && is_live(m[key], now)
}

/// What `query` answers.
pub open spec fn query_of(m: Entries, key: Seq<char>, now: u64) -> Option<usize> {
    if live_entry(m, key, now) {
        Some(m[key].remaining)
    } else {
        None
    }
}

/// What `try_consume` answers.
pub open spec fn consume_of(m: Entries, key: Seq<char>, now: u64) -> Consumed {
    if !live_entry(m, key, now) {
        Consumed::NotFound
    } else if m[key].remaining == 0 {
        Consumed::Exhausted
    } else {
        Consumed::Admitted(m[key].remaining)
    }
}

/// Store contents after `try_consume`: one unit less where one was taken.
pub open spec fn consume_state(m: Entries, key: Seq<char>, now: u64) -> Entries {
    match consume_of(m, key, now) {
        Consumed::Admitted(c) => m.insert(
            key,
            Entry { remaining: (c - 1) as usize, expiry: m[key].expiry },
        ),
        _ => m,
    }
}

/// Seconds from `now` until `expiry`, zero once it has passed.
pub open spec fn seconds_left(expiry: u64, now: u64) -> u64 {
    if expiry > now {
        (expiry - now) as u64
    } else {
        0
    }
}

/// What `time_to_live` answers: the seconds left of a live window.
pub open spec fn ttl_of(m: Entries, key: Seq<char>, now: u64) -> Option<u64> {
    if live_entry(m, key, now) {
        Some(seconds_left(m[key].expiry, now))
    } else {
        None
    }
}

/// What `remove` answers: the count the key held, or zero.
pub open spec fn removed_of(m: Entries, key: Seq<char>) -> usize {
    if m.contains_key(key) {
        m[key].remaining
    } else {
        0
    }
}

/// A window store: per-key counters with expiry, each operation one atomic step.
pub trait WindowStore: Sized {
    /// The counters the store holds, expired ones included.
    spec fn entries(&self) -> Entries;

    /// The store's own representation invariant.
    spec fn wf(&self) -> bool;

    /// Whether every operation of the store succeeds (an in-process store, as
    /// opposed to a backend reached over a transport that may fail).
    spec fn reliable(&self) -> bool;

    /// Remaining count of the key's live window, if it has one.
    fn query(&self, key: &String, now: u64) -> (r: Result<Option<usize>, StoreError>)
        requires
            self.wf(),
        ensures
            self.reliable() ==> r is Ok,
            r is Ok ==> r->Ok_0 == query_of(self.entries(), key@, now),
    ;

    /// Checks and decrements the key's count in a single step.
    fn try_consume(&mut self, key: &String, now: u64) -> (r: Result<Consumed, StoreError>)
        requires
            old(self).wf(),
        ensures
            final(self).wf(),
            final(self).reliable() == old(self).reliable(),
            old(self).reliable() ==> r is Ok,
            r is Ok ==> r->Ok_0 == consume_of(old(self).entries(), key@, now)
                && final(self).entries() == consume_state(old(self).entries(), key@, now),
            r is Err ==> final(self).entries() == old(self).entries(),
    ;

    /// Installs a fresh entry for the key, replacing any earlier one.
    fn create(&mut self, key: &String, remaining: usize, expiry: u64) -> (r: Result<(), StoreError>)
        requires
            old(self).wf(),
        ensures
            final(self).wf(),
            final(self).reliable() == old(self).reliable(),
            old(self).reliable() ==> r is Ok,
            r is Ok ==> final(self).entries() == old(self).entries().insert(
                key@,
                Entry { remaining, expiry },
            ),
            r is Err ==> final(self).entries() == old(self).entries(),
    ;

    /// Seconds left of the key's live window, if it has one.
    fn time_to_live(&self, key: &String, now: u64) -> (r: Result<Option<u64>, StoreError>)
        requires
            self.wf(),
        ensures
            self.reliable() ==> r is Ok,
            r is Ok ==> r->Ok_0 == ttl_of(self.entries(), key@, now),
    ;

    /// Drops the key's entry and answers the count it held, or zero.
    fn remove(&mut self, key: &String) -> (r: Result<usize, StoreError>)
        requires
            old(self).wf(),
        ensures
            final(self).wf(),
            final(self).reliable() == old(self).reliable(),
            old(self).reliable() ==> r is Ok,
            r is Ok ==> r->Ok_0 == removed_of(old(self).entries(), key@)
                && final(self).entries() == old(self).entries().remove(key@),
            r is Err ==> final(self).entries() == old(self).entries(),
    ;
}

/// A store operation in message form, for a store owned by a single task
/// that serves requests one at a time.
#[derive(Clone, Debug)]
pub enum Messages {
    /// Query the remaining count of a key's live window.
    Get(String),
    /// Install a fresh entry: `value` requests left until `expiry`.
    Create { key: String, value: usize, expiry: u64 },
    /// Check and decrement a key's count in one step.
    Consume(String),
    /// Ask for the seconds left of a key's live window.
    Expire(String),
    /// Drop a key's entry.
    Remove(String),
}

/// The answer to each of `Messages`, variant for variant.
#[derive(Clone, Copy, Debug, PartialEq, Eq, Structural)]
pub enum Responses {
    Get(Option<usize>),
    Create,
    Consume(Consumed),
    Expire(Option<u64>),
    Remove(usize),
}

/// The answer that `msg` gets from a store holding `m` at instant `now`.
pub open spec fn response_of(m: Entries, msg: Messages, now: u64) -> Responses {
    match msg {
        Messages::Get(k) => Responses::Get(query_of(m, k@, now)),
        Messages::Create { .. } => Responses::Create,
        Messages::Consume(k) => Responses::Consume(consume_of(m, k@, now)),
        Messages::Expire(k) => Responses::Expire(ttl_of(m, k@, now)),
        Messages::Remove(k) => Responses::Remove(removed_of(m, k@)),
    }
}

/// The store contents after serving `msg`.
pub open spec fn state_after(m: Entries, msg: Messages, now: u64) -> Entries {
    match msg {
        Messages::Create { key, value, expiry } => m.insert(key@, Entry { remaining: value, expiry }),
        Messages::Consume(k) => consume_state(m, k@, now),
        Messages::Remove(k) => m.remove(k@),
        _ => m,
    }
}

/// Serves one message against `store` at instant `now`.
pub fn handle<S: WindowStore>(store: &mut S, msg: Messages, now: u64) -> (r: Result<
    Responses,
    StoreError,
>)
    requires
        old(store).wf(),
    ensures
        final(store).wf(),
        final(store).reliable() == old(store).reliable(),
        old(store).reliable() ==> r is Ok,
        r is Ok ==> r->Ok_0 == response_of(old(store).entries(), msg, now)
            && final(store).entries() == state_after(old(store).entries(), msg, now),
{
    match msg {
        Messages::Get(k) => {
            let q = store.query(&k, now)?;
            Ok(Responses::Get(q))
        },
        Messages::Create { key, value, expiry } => {
            store.create(&key, value, expiry)?;
            Ok(Responses::Create)
        },
        Messages::Consume(k) => {
            let c = store.try_consume(&k, now)?;
            Ok(Responses::Consume(c))
        },
        Messages::Expire(k) => {
            let t = store.time_to_live(&k, now)?;
            Ok(Responses::Expire(t))
        },
        Messages::Remove(k) => {
            let n = store.remove(&k)?;
            Ok(Responses::Remove(n))
        },
    }
}

} // verus!
