//! The in-process window store: a list of slots with distinct keys, expired
//! entries replaced lazily on the next creation for their key.
use vstd::prelude::*;

use crate::store::{Consumed, Entries, Entry, StoreError, WindowStore};

verus! {

struct Slot {
    key: String,
    entry: Entry,
}

spec fn map_of(s: Seq<Slot>) -> Entries
    decreases s.len(),
{
    if s.len() == 0 {
        Map::empty()
    } else {
        map_of(s.drop_last()).insert(s.last().key@, s.last().entry)
    }
}

spec fn unique_keys(s: Seq<Slot>) -> bool {
    forall|i: int, j: int| 0 <= i < j < s.len() ==> s[i].key@ != s[j].key@
}

proof fn lemma_absent(s: Seq<Slot>, k: Seq<char>)
    requires
        forall|i: int| 0 <= i < s.len() ==> s[i].key@ != k,
    ensures
        !map_of(s).contains_key(k),
    decreases s.len(),
{
    if s.len() > 0 {
        lemma_absent(s.drop_last(), k);
    }
}

proof fn lemma_found(s: Seq<Slot>, i: int)
    requires
        unique_keys(s),
        0 <= i < s.len(),
    ensures
        map_of(s).contains_key(s[i].key@),
        map_of(s)[s[i].key@] == s[i].entry,
    decreases s.len(),
{
    if i < s.len() - 1 {
        lemma_found(s.drop_last(), i);
    }
}

proof fn lemma_update(s: Seq<Slot>, i: int, x: Slot)
    requires
        unique_keys(s),
        0 <= i < s.len(),
        x.key@ == s[i].key@,
    ensures
        map_of(s.update(i, x)) == map_of(s).insert(x.key@, x.entry),
    decreases s.len(),
{
    let t = s.update(i, x);
    if i == s.len() - 1 {
        assert(t.drop_last() =~= s.drop_last());
        assert(map_of(t) =~= map_of(s).insert(x.key@, x.entry));
    } else {
        assert(t.drop_last() =~= s.drop_last().update(i, x));
        lemma_update(s.drop_last(), i, x);
        assert(map_of(t) =~= map_of(s).insert(x.key@, x.entry));
    }
}

proof fn lemma_remove(s: Seq<Slot>, i: int)
    requires
        unique_keys(s),
        0 <= i < s.len(),
    ensures
        map_of(s.remove(i)) == map_of(s).remove(s[i].key@),
    decreases s.len(),
{
    let t = s.remove(i);
    if i == s.len() - 1 {
        assert(t =~= s.drop_last());
        lemma_absent(s.drop_last(), s[i].key@);
        assert(map_of(t) =~= map_of(s).remove(s[i].key@));
    } else {
        assert(t.drop_last() =~= s.drop_last().remove(i));
        assert(t.last() == s.last());
        lemma_remove(s.drop_last(), i);
        assert(map_of(t) =~= map_of(s).remove(s[i].key@));
    }
}

/// A window store held in this process.
pub struct MemoryStore {
    slots: Vec<Slot>,
}

impl MemoryStore {
    /// An empty store.
    pub fn new() -> (r: Self)
        ensures
            r.wf(),
            r.reliable(),
            r.entries() == Entries::empty(),
    {
        MemoryStore { slots: Vec::new() }
    }

    fn find(&self, key: &String) -> (r: Option<usize>)
        ensures
            match r {
                Some(i) => i < self.slots@.len() && self.slots@[i as int].key@ == key@,
                None => forall|j: int| 0 <= j < self.slots@.len() ==> self.slots@[j].key@ != key@,
            },
    {
        let mut i: usize = 0;
        while i < self.slots.len()
            invariant
                i <= self.slots@.len(),
                forall|j: int| 0 <= j < i ==> self.slots@[j].key@ != key@,
            decreases self.slots@.len() - i,
        {
            if self.slots[i].key == *key {
                return Some(i);
            }
            i = i + 1;
        }
        None
    }

    fn replace(&mut self, i: usize, key: &String, entry: Entry)
        requires
            old(self).wf(),
            i < old(self).slots@.len(),
            old(self).slots@[i as int].key@ == key@,
        ensures
            final(self).wf(),
            final(self).entries() == old(self).entries().insert(key@, entry),
    {
        let slot = Slot { key: key.clone(), entry };
        proof {
            lemma_update(self.slots@, i as int, slot);
        }
        self.slots.set(i, slot);
    }
}

impl WindowStore for MemoryStore {
    closed spec fn entries(&self) -> Entries {
        map_of(self.slots@)
    }

    closed spec fn wf(&self) -> bool {
        unique_keys(self.slots@)
    }

    open spec fn reliable(&self) -> bool {
        true
    }

    fn query(&self, key: &String, now: u64) -> (r: Result<Option<usize>, StoreError>) {
        match self.find(key) {
            Some(i) => {
                proof {
                    lemma_found(self.slots@, i as int);
                }
                let e = self.slots[i].entry;
                if now < e.expiry {
                    Ok(Some(e.remaining))
                } else {
                    Ok(None)
                }
            },
            None => {
                proof {
                    lemma_absent(self.slots@, key@);
                }
                Ok(None)
            },
        }
    }

    fn try_consume(&mut self, key: &String, now: u64) -> (r: Result<Consumed, StoreError>) {
        match self.find(key) {
            Some(i) => {
                proof {
                    lemma_found(self.slots@, i as int);
                }
                let e = self.slots[i].entry;
                if now >= e.expiry {
                    Ok(Consumed::NotFound)
                } else if e.remaining == 0 {
                    Ok(Consumed::Exhausted)
                } else {
                    self.replace(i, key, Entry { remaining: e.remaining - 1, expiry: e.expiry });
                    Ok(Consumed::Admitted(e.remaining))
                }
            },
            None => {
                proof {
                    lemma_absent(self.slots@, key@);
                }
                Ok(Consumed::NotFound)
            },
        }
    }

    fn create(&mut self, key: &String, remaining: usize, expiry: u64) -> (r: Result<(), StoreError>) {
        let entry = Entry { remaining, expiry };
        match self.find(key) {
            Some(i) => {
                self.replace(i, key, entry);
            },
            None => {
                let slot = Slot { key: key.clone(), entry };
                proof {
                    assert(self.slots@.push(slot).drop_last() =~= self.slots@);
                }
                self.slots.push(slot);
            },
        }
        Ok(())
    }

    fn time_to_live(&self, key: &String, now: u64) -> (r: Result<Option<u64>, StoreError>) {
        match self.find(key) {
            Some(i) => {
                proof {
                    lemma_found(self.slots@, i as int);
                }
                let e = self.slots[i].entry;
                if now < e.expiry {
                    Ok(Some(e.expiry - now))
                } else {
                    Ok(None)
                }
            },
            None => {
                proof {
                    lemma_absent(self.slots@, key@);
                }
                Ok(None)
            },
        }
    }

    fn remove(&mut self, key: &String) -> (r: Result<usize, StoreError>) {
        match self.find(key) {
            Some(i) => {
                proof {
                    lemma_found(self.slots@, i as int);
                    lemma_remove(self.slots@, i as int);
                }
                let slot = self.slots.remove(i);
                Ok(slot.entry.remaining)
            },
            None => {
                proof {
                    lemma_absent(self.slots@, key@);
                    assert(self.entries().remove(key@) =~= self.entries());
                }
                Ok(0)
            },
        }
    }
}

} // verus!
