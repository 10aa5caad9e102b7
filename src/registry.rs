//! Session registries: by thread id, and by legacy integer handle.
use vstd::prelude::*;

use crate::error::ErrorKind;

verus! {

/// A value that can be copied out of a registry: the copy equals it.
pub trait Duplicate: Sized {
    fn duplicate(&self) -> (r: Self)
        ensures
            r == *self;
}

/// A key of an `ObjectCache`: compared and copied by its view.
pub trait CacheKey: View + Sized {
    fn same_key(&self, other: &Self) -> (r: bool)
        ensures
            r == (self@ == other@);

    fn copy_key(&self) -> (r: Self)
        ensures
            r@ == self@;
}

impl CacheKey for String {
    fn same_key(&self, other: &Self) -> (r: bool) {
        self.eq(other)
    }

    fn copy_key(&self) -> (r: Self) {
        self.clone()
    }
}

impl CacheKey for u32 {
    fn same_key(&self, other: &Self) -> (r: bool) {
        *self == *other
    }

    fn copy_key(&self) -> (r: Self) {
        *self
    }
}

/// A store of sessions keyed by thread id or by handle. It is owned by whoever creates
/// it: callers read a session through `get`, copy it out to change it, and
/// commit the change with `insert`. The last `insert` under a key wins.
pub struct ObjectCache<K: CacheKey, V> {
    entries: Vec<(K, V)>,
    contents: Ghost<Map<K::V, V>>,
}

impl<K: CacheKey, V> View for ObjectCache<K, V> {
    type V = Map<K::V, V>;

    closed spec fn view(&self) -> Map<K::V, V> {
        self.contents@
    }
}

impl<K: CacheKey, V> ObjectCache<K, V> {
    /// Each key is held once, and the entries hold exactly the map's pairs.
    pub closed spec fn wf(&self) -> bool {
        &&& forall|i: int, j: int|
            0 <= i < j < self.entries@.len() ==> self.entries@[i].0@ != self.entries@[j].0@
        &&& forall|i: int|
            0 <= i < self.entries@.len() ==> #[trigger] self.contents@.contains_key(
                self.entries@[i].0@,
            ) && self.contents@[self.entries@[i].0@] == self.entries@[i].1
        &&& forall|k: K::V|
            #[trigger] self.contents@.contains_key(k) ==> exists|i: int|
                0 <= i < self.entries@.len() && self.entries@[i].0@ == k
    }

    pub fn new() -> (r: ObjectCache<K, V>)
        ensures
            r.wf(),
            r@ == Map::<K::V, V>::empty(),
    {
        ObjectCache { entries: Vec::new(), contents: Ghost(Map::empty()) }
    }

    fn find(&self, key: &K) -> (r: Option<usize>)
        requires
            self.wf(),
        ensures
            match r {
                Some(i) => i < self.entries@.len() && self.entries@[i as int].0@ == key@,
                None => !self@.contains_key(key@),
            },
    {
        let mut i: usize = 0;
        while i < self.entries.len()
            invariant
                self.wf(),
                i <= self.entries@.len(),
                forall|j: int| 0 <= j < i ==> self.entries@[j].0@ != key@,
            decreases self.entries@.len() - i,
        {
            if self.entries[i].0.same_key(key) {
                return Some(i);
            }
            i = i + 1;
        }
        None
    }

    /// Stores `value` under `key`, replacing what was there; returns the key.
    pub fn insert(&mut self, key: &K, value: V) -> (r: K)
        requires
            old(self).wf(),
        ensures
            final(self).wf(),
            final(self)@ == old(self)@.insert(key@, value),
            r@ == key@,
    {
        let ghost old_entries = self.entries@;
        match self.find(key) {
            Some(i) => {
                self.entries.set(i, (key.copy_key(), value));
                proof {
                    self.contents@ = self.contents@.insert(key@, value);
                    let ne = self.entries@;
                    assert forall|a: int| 0 <= a < ne.len() implies ne[a].0@ == old_entries[a].0@ by {}
                    assert forall|a: int| 0 <= a < ne.len() implies #[trigger] self.contents@.contains_key(ne[a].0@)
                        && self.contents@[ne[a].0@] == ne[a].1 by {
                        if a != i {
                            assert(ne[a] == old_entries[a]);
                            assert(old(self).contents@.contains_key(old_entries[a].0@));
                        }
                    }
                    assert forall|k: K::V| #[trigger] self.contents@.contains_key(k) implies exists|j: int|
                        0 <= j < self.entries@.len() && self.entries@[j].0@ == k by {
                        if k != key@ {
                            let j = choose|j: int| 0 <= j < old_entries.len() && old_entries[j].0@ == k;
                            assert(self.entries@[j].0@ == k);
                        } else {
                            assert(self.entries@[i as int].0@ == k);
                        }
                    }
                }
            },
            None => {
                self.entries.push((key.copy_key(), value));
                proof {
                    self.contents@ = self.contents@.insert(key@, value);
                    let n = self.entries@.len() - 1;
                    assert(old_entries.len() == n);
                    assert forall|j: int| 0 <= j < n implies old_entries[j].0@ != key@ by {
                        assert(old(self).contents@.contains_key(old_entries[j].0@));
                    }
                    let ne = self.entries@;
                    assert forall|a: int| 0 <= a < ne.len() implies #[trigger] self.contents@.contains_key(ne[a].0@)
                        && self.contents@[ne[a].0@] == ne[a].1 by {
                        if a < n {
                            assert(ne[a] == old_entries[a]);
                            assert(old(self).contents@.contains_key(old_entries[a].0@));
                        }
                    }
                    assert forall|k: K::V| #[trigger] self.contents@.contains_key(k) implies exists|j: int|
                        0 <= j < self.entries@.len() && self.entries@[j].0@ == k by {
                        if k != key@ {
                            let j = choose|j: int| 0 <= j < old_entries.len() && old_entries[j].0@ == k;
                            assert(self.entries@[j].0@ == k);
                        } else {
                            assert(self.entries@[n].0@ == k);
                        }
                    }
                }
            },
        }
        key.copy_key()
    }

    /// The session under `key`.
    pub fn get(&self, key: &K) -> (r: Result<&V, ErrorKind>)
        requires
            self.wf(),
        ensures
            self@.contains_key(key@) <==> r is Ok,
            r matches Ok(v) ==> *v == self@[key@],
            r matches Err(e) ==> e == ErrorKind::NotFound,
    {
        match self.find(key) {
            Some(i) => {
                assert(self.contents@.contains_key(self.entries@[i as int].0@));
                Ok(&self.entries[i].1)
            },
            None => Err(ErrorKind::NotFound),
        }
    }

    /// A detached copy of the session under `key`, to change and write back.
    pub fn get_cloned(&self, key: &K) -> (r: Result<V, ErrorKind>) where V: Duplicate
        requires
            self.wf(),
        ensures
            self@.contains_key(key@) <==> r is Ok,
            r matches Ok(v) ==> v == self@[key@],
            r matches Err(e) ==> e == ErrorKind::NotFound,
    {
        let v = self.get(key)?;
        Ok(v.duplicate())
    }

    pub fn contains_key(&self, key: &K) -> (r: bool)
        requires
            self.wf(),
        ensures
            r == self@.contains_key(key@),
    {
        match self.find(key) {
            Some(i) => {
                assert(self.contents@.contains_key(self.entries@[i as int].0@));
                true
            },
            None => false,
        }
    }

    /// Removes the session under `key`.
    pub fn release(&mut self, key: &K) -> (r: Result<(), ErrorKind>)
        requires
            old(self).wf(),
        ensures
            final(self).wf(),
            old(self)@.contains_key(key@) <==> r is Ok,
            r is Ok ==> final(self)@ == old(self)@.remove(key@),
            r matches Err(e) ==> e == ErrorKind::NotFound && final(self)@ == old(self)@,
    {
        let ghost old_entries = self.entries@;
        match self.find(key) {
            Some(i) => {
                let _ = self.entries.remove(i);
                proof {
                    self.contents@ = self.contents@.remove(key@);
                    let ne = self.entries@;
                    assert forall|a: int, b: int| 0 <= a < b < ne.len() implies ne[a].0@ != ne[b].0@ by {
                        let oa = if a < i { a } else { a + 1 };
                        let ob = if b < i { b } else { b + 1 };
                        assert(ne[a] == old_entries[oa]);
                        assert(ne[b] == old_entries[ob]);
                    }
                    assert forall|a: int| 0 <= a < ne.len() implies #[trigger] self.contents@.contains_key(ne[a].0@)
                        && self.contents@[ne[a].0@] == ne[a].1 by {
                        let oa = if a < i { a } else { a + 1 };
                        assert(ne[a] == old_entries[oa]);
                        assert(old(self).contents@.contains_key(old_entries[oa].0@));
                    }
                    assert forall|k: K::V| #[trigger] self.contents@.contains_key(k) implies exists|j: int|
                        0 <= j < ne.len() && ne[j].0@ == k by {
                        assert(old(self).contents@.contains_key(k));
                        let j = choose|j: int| 0 <= j < old_entries.len() && old_entries[j].0@ == k;
                        assert(j != i);
                        let nj = if j < i { j } else { j - 1 };
                        assert(ne[nj] == old_entries[j]);
                    }
                }
                Ok(())
            },
            None => Err(ErrorKind::NotFound),
        }
    }

    /// Removes every session.
    pub fn drain(&mut self)
        ensures
            final(self).wf(),
            final(self)@ == Map::<K::V, V>::empty(),
    {
        self.entries = Vec::new();
        self.contents = Ghost(Map::empty());
    }
}


/// Sessions under small integer handles. Handles are handed out in
/// increasing order from 1, so none is handed out twice; a session is
/// written back only under a handle that is still live.
pub struct HandleCache<V> {
    cache: ObjectCache<u32, V>,
    next: u32,
}

impl<V> View for HandleCache<V> {
    type V = Map<u32, V>;

    closed spec fn view(&self) -> Map<u32, V> {
        self.cache@
    }
}

impl<V> HandleCache<V> {
    /// The handle that `add` gives next.
    pub closed spec fn next_handle(&self) -> u32 {
        self.next
    }

    /// Every live handle lies below the next one, and none is 0.
    pub closed spec fn wf(&self) -> bool {
        &&& self.cache.wf()
        &&& self.next >= 1
        &&& forall|h: u32| #[trigger] self.cache@.contains_key(h) ==> 1 <= h < self.next
    }

    pub fn new() -> (r: HandleCache<V>)
        ensures
            r.wf(),
            r@ == Map::<u32, V>::empty(),
            r.next_handle() == 1,
    {
        HandleCache { cache: ObjectCache::new(), next: 1 }
    }

    /// Stores a new session under a fresh handle.
    pub fn add(&mut self, value: V) -> (r: Result<u32, ErrorKind>)
        requires
            old(self).wf(),
        ensures
            final(self).wf(),
            old(self).next_handle() < u32::MAX <==> r is Ok,
            r matches Ok(h) ==> {
                &&& h == old(self).next_handle()
                &&& h >= 1
                &&& !old(self)@.contains_key(h)
                &&& final(self)@ == old(self)@.insert(h, value)
                &&& final(self).next_handle() == h + 1
            },
            r matches Err(e) ==> e == ErrorKind::ObjectCacheError && *final(self) == *old(self),
    {
        if self.next == u32::MAX {
            return Err(ErrorKind::ObjectCacheError);
        }
        let h = self.next;
        self.cache.insert(&h, value);
        self.next = h + 1;
        Ok(h)
    }

    /// The session under `handle`.
    pub fn get(&self, handle: u32) -> (r: Result<&V, ErrorKind>)
        requires
            self.wf(),
        ensures
            self@.contains_key(handle) <==> r is Ok,
            r matches Ok(v) ==> *v == self@[handle],
            r matches Err(e) ==> e == ErrorKind::InvalidHandle,
    {
        match self.cache.get(&handle) {
            Ok(v) => Ok(v),
            Err(_) => Err(ErrorKind::InvalidHandle),
        }
    }

    /// A detached copy of the session under `handle`, to change and write back.
    pub fn get_cloned(&self, handle: u32) -> (r: Result<V, ErrorKind>) where V: Duplicate
        requires
            self.wf(),
        ensures
            self@.contains_key(handle) <==> r is Ok,
            r matches Ok(v) ==> v == self@[handle],
            r matches Err(e) ==> e == ErrorKind::InvalidHandle,
    {
        let v = self.get(handle)?;
        Ok(v.duplicate())
    }

    /// Writes a session back under a live handle.
    pub fn insert(&mut self, handle: u32, value: V) -> (r: Result<(), ErrorKind>)
        requires
            old(self).wf(),
        ensures
            final(self).wf(),
            final(self).next_handle() == old(self).next_handle(),
            old(self)@.contains_key(handle) <==> r is Ok,
            r is Ok ==> final(self)@ == old(self)@.insert(handle, value),
            r matches Err(e) ==> e == ErrorKind::InvalidHandle && final(self)@ == old(self)@,
    {
        if !self.cache.contains_key(&handle) {
            return Err(ErrorKind::InvalidHandle);
        }
        self.cache.insert(&handle, value);
        Ok(())
    }

    pub fn has_handle(&self, handle: u32) -> (r: bool)
        requires
            self.wf(),
        ensures
            r == self@.contains_key(handle),
    {
        self.cache.contains_key(&handle)
    }

    /// Removes the session under `handle`.
    pub fn release(&mut self, handle: u32) -> (r: Result<(), ErrorKind>)
        requires
            old(self).wf(),
        ensures
            final(self).wf(),
            final(self).next_handle() == old(self).next_handle(),
            old(self)@.contains_key(handle) <==> r is Ok,
            r is Ok ==> final(self)@ == old(self)@.remove(handle),
            r matches Err(e) ==> e == ErrorKind::InvalidHandle && final(self)@ == old(self)@,
    {
        match self.cache.release(&handle) {
            Ok(()) => Ok(()),
            Err(_) => Err(ErrorKind::InvalidHandle),
        }
    }

    /// Removes every session; handles given before are not given again.
    pub fn drain(&mut self)
        requires
            old(self).wf(),
        ensures
            final(self).wf(),
            final(self)@ == Map::<u32, V>::empty(),
            final(self).next_handle() == old(self).next_handle(),
    {
        self.cache.drain();
    }
}

} // verus!
