//! An owned map from an opaque id to the live resource registered under it.
//!
//! Ids are caller-supplied strings. The registry keeps at most one handle per id and
//! never looks inside a handle: the caller decides what a handle is and what has to
//! happen to one that leaves the registry.

use vstd::prelude::*;
use crate::text::same_text;

verus! {

/// Ids with their handles; no id occurs twice.
pub struct Registry<H> {
    ids: Vec<String>,
    handles: Vec<H>,
}

/// An id together with the handle that was registered under it.
#[derive(Debug)]
pub struct Entry<H> {
    pub id: String,
    pub handle: H,
}

/// The characters of each id, in order.
pub open spec fn texts(ids: Seq<String>) -> Seq<Seq<char>> {
    ids.map_values(|id: String| id@)
}

/// The map that a duplicate-free list of ids and the handles beside them stand for.
pub open spec fn as_map<H>(ids: Seq<Seq<char>>, handles: Seq<H>) -> Map<Seq<char>, H> {
    Map::new(|id: Seq<char>| ids.contains(id), |id: Seq<char>| handles[ids.index_of(id)])
}

/// The ids of a list of entries, in order.
pub open spec fn entry_ids<H>(entries: Seq<Entry<H>>) -> Seq<Seq<char>> {
    entries.map_values(|e: Entry<H>| e.id@)
}

/// The handles of a list of entries, in order.
pub open spec fn entry_handles<H>(entries: Seq<Entry<H>>) -> Seq<H> {
    entries.map_values(|e: Entry<H>| e.handle)
}

/// The map that a duplicate-free list of entries stands for.
pub open spec fn entry_map<H>(entries: Seq<Entry<H>>) -> Map<Seq<char>, H> {
    as_map(entry_ids(entries), entry_handles(entries))
}

/// In a duplicate-free list the entry at `i` is the one that its id maps to.
proof fn lemma_position<H>(ids: Seq<Seq<char>>, handles: Seq<H>, i: int)
    requires
        ids.no_duplicates(),
        0 <= i < ids.len(),
    ensures
        ids.contains(ids[i]),
        ids.index_of(ids[i]) == i,
        as_map(ids, handles).contains_key(ids[i]),
        as_map(ids, handles)[ids[i]] == handles[i],
{
    assert(ids.contains(ids[i]));
}

/// Appending a fresh id adds one key and leaves the others as they were.
proof fn lemma_push<H>(ids: Seq<Seq<char>>, handles: Seq<H>, id: Seq<char>, handle: H)
    requires
        ids.no_duplicates(),
        ids.len() == handles.len(),
        !ids.contains(id),
    ensures
        ids.push(id).no_duplicates(),
        as_map(ids.push(id), handles.push(handle)) == as_map(ids, handles).insert(id, handle),
{
    let ids2 = ids.push(id);
    let handles2 = handles.push(handle);
    assert forall|i: int, j: int| 0 <= i < ids2.len() && 0 <= j < ids2.len() && i != j implies ids2[i]
        != ids2[j] by {
        if i < ids.len() {
            assert(ids.contains(ids2[i]));
        }
        if j < ids.len() {
            assert(ids.contains(ids2[j]));
        }
    }
    assert forall|k: Seq<char>| ids2.contains(k) == (ids.contains(k) || k == id) by {
        if ids.contains(k) {
            let i = ids.index_of(k);
            assert(ids2[i] == k);
        }
        if k == id {
            assert(ids2[ids.len() as int] == k);
        }
    }
    assert forall|k: Seq<char>| ids2.contains(k) implies #[trigger] as_map(ids2, handles2)[k]
        == as_map(ids, handles).insert(id, handle)[k] by {
        let i = ids2.index_of(k);
        lemma_position(ids2, handles2, i);
        if i < ids.len() {
            lemma_position(ids, handles, i);
        }
    }
    assert(as_map(ids2, handles2) =~= as_map(ids, handles).insert(id, handle));
}

/// Taking out the entry at `i` removes its key and leaves the others as they were.
proof fn lemma_remove<H>(ids: Seq<Seq<char>>, handles: Seq<H>, i: int)
    requires
        ids.no_duplicates(),
        ids.len() == handles.len(),
        0 <= i < ids.len(),
    ensures
        ids.remove(i).no_duplicates(),
        as_map(ids.remove(i), handles.remove(i)) == as_map(ids, handles).remove(ids[i]),
{
    let ids2 = ids.remove(i);
    let handles2 = handles.remove(i);
    assert forall|a: int| 0 <= a < ids2.len() implies #[trigger] ids2[a] == ids[if a < i { a } else { a + 1 }]
        && handles2[a] == handles[if a < i { a } else { a + 1 }] by {}
    assert forall|a: int, b: int| 0 <= a < ids2.len() && 0 <= b < ids2.len() && a != b implies ids2[a]
        != ids2[b] by {}
    assert forall|k: Seq<char>| ids2.contains(k) == (ids.contains(k) && k != ids[i]) by {
        if ids2.contains(k) {
            let a = ids2.index_of(k);
            let src = if a < i { a } else { a + 1 };
            assert(ids[src] == k);
        }
        if ids.contains(k) && k != ids[i] {
            let a = ids.index_of(k);
            let dst = if a < i { a } else { a - 1 };
            assert(ids2[dst] == k);
        }
    }
    assert forall|k: Seq<char>| ids2.contains(k) implies #[trigger] as_map(ids2, handles2)[k]
        == as_map(ids, handles).remove(ids[i])[k] by {
        let a = ids2.index_of(k);
        lemma_position(ids2, handles2, a);
        lemma_position(ids, handles, if a < i { a } else { a + 1 });
    }
    assert(as_map(ids2, handles2) =~= as_map(ids, handles).remove(ids[i]));
}

impl<H> Registry<H> {
    #[verifier::type_invariant]
    spec fn consistent(self) -> bool {
        &&& self.ids@.len() == self.handles@.len()
        &&& texts(self.ids@).no_duplicates()
    }

    /// The registered ids, each with its handle.
    pub closed spec fn view(&self) -> Map<Seq<char>, H> {
        as_map(texts(self.ids@), self.handles@)
    }

    /// A registry that holds nothing.
    pub fn new() -> (registry: Self)
        ensures
            registry@ == Map::<Seq<char>, H>::empty(),
    {
        let registry = Registry { ids: Vec::new(), handles: Vec::new() };
        assert(registry@ =~= Map::<Seq<char>, H>::empty());
        registry
    }

    /// The place of `id` among the ids.
    fn find(&self, id: &str) -> (found: Option<usize>)
        ensures
            match found {
                Some(i) => i < self.ids@.len() && self.ids@[i as int]@ == id@,
                None => !texts(self.ids@).contains(id@),
            },
    {
        let mut i: usize = 0;
        while i < self.ids.len()
            invariant
                i <= self.ids@.len(),
                forall|k: int| 0 <= k < i ==> (#[trigger] self.ids@[k])@ != id@,
            decreases self.ids@.len() - i,
        {
            if same_text(self.ids[i].as_str(), id) {
                return Some(i);
            }
            i += 1;
        }
        None
    }

    /// Whether `id` is registered.
    pub fn contains(&self, id: &str) -> (present: bool)
        ensures
            present == self@.contains_key(id@),
    {
        let found = self.find(id);
        proof {
            if let Some(i) = found {
                assert(texts(self.ids@)[i as int] == id@);
            }
        }
        found.is_some()
    }

    /// The handle registered under `id`, if there is one.
    pub fn get(&self, id: &str) -> (handle: Option<&H>)
        ensures
            match handle {
                Some(h) => self@.contains_key(id@) && *h == self@[id@],
                None => !self@.contains_key(id@),
            },
    {
        proof { use_type_invariant(self); }
        match self.find(id) {
            Some(i) => {
                proof {
                    assert(texts(self.ids@)[i as int] == id@);
                    lemma_position(texts(self.ids@), self.handles@, i as int);
                }
                Some(&self.handles[i])
            },
            None => None,
        }
    }

    /// The handle registered under `id`, if there is one, for the caller to change.
    pub fn get_mut(&mut self, id: &str) -> (handle: Option<&mut H>)
        ensures
            match handle {
                Some(h) => old(self)@.contains_key(id@) && *h == old(self)@[id@]
                    && final(self)@ == old(self)@.insert(id@, *final(h)),
                None => !old(self)@.contains_key(id@) && final(self)@ == old(self)@,
            },
    {
        proof { use_type_invariant(&*self); }
        match self.find(id) {
            Some(i) => {
                proof {
                    let ids = texts(self.ids@);
                    let handles = self.handles@;
                    assert(ids[i as int] == id@);
                    lemma_position(ids, handles, i as int);
                    assert forall|h: H| #[trigger] as_map(ids, handles.update(i as int, h)) == as_map(ids, handles).insert(id@, h) by {
                        assert(as_map(ids, handles.update(i as int, h)) =~= as_map(ids, handles).insert(id@, h));
                    }
                }
                Some(&mut self.handles[i])
            },
            None => None,
        }
    }

    /// Registers `handle` under `id`, unless the id is taken: then nothing changes and
    /// the handle comes back.
    pub fn insert(&mut self, id: String, handle: H) -> (outcome: Result<(), H>)
        ensures
            match outcome {
                Ok(()) => !old(self)@.contains_key(id@) && final(self)@ == old(self)@.insert(
                    id@,
                    handle,
                ),
                Err(back) => old(self)@.contains_key(id@) && back == handle && final(self)@ == old(
                    self,
                )@,
            },
    {
        proof { use_type_invariant(&*self); }
        let found = self.find(id.as_str());
        if let Some(i) = found {
            proof {
                assert(texts(self.ids@)[i as int] == id@);
            }
            return Err(handle);
        }
        let mut taken = Registry { ids: Vec::new(), handles: Vec::new() };
        core::mem::swap(self, &mut taken);
        let Registry { mut ids, mut handles } = taken;
        proof {
            lemma_push(texts(ids@), handles@, id@, handle);
            assert(texts(ids@.push(id)) =~= texts(ids@).push(id@));
        }
        ids.push(id);
        handles.push(handle);
        *self = Registry { ids, handles };
        Ok(())
    }

    /// Registers `handle` under `id`, in place of the handle that was there, if one
    /// was: that one is handed out.
    pub fn replace(&mut self, id: String, handle: H) -> (previous: Option<H>)
        ensures
            final(self)@ == old(self)@.insert(id@, handle),
            match previous {
                Some(previous) => old(self)@.contains_key(id@) && previous == old(self)@[id@],
                None => !old(self)@.contains_key(id@),
            },
    {
        let previous = self.remove(id.as_str());
        let ghost between = self@;
        let inserted = self.insert(id, handle);
        assert(inserted is Ok);
        assert(between.insert(id@, handle) =~= old(self)@.insert(id@, handle));
        previous
    }

    /// Takes the handle registered under `id` out of the registry, if there is one.
    pub fn remove(&mut self, id: &str) -> (removed: Option<H>)
        ensures
            match removed {
                Some(handle) => old(self)@.contains_key(id@) && handle == old(self)@[id@],
                None => !old(self)@.contains_key(id@),
            },
            final(self)@ == old(self)@.remove(id@),
    {
        proof { use_type_invariant(&*self); }
        match self.find(id) {
            Some(i) => {
                let mut taken = Registry { ids: Vec::new(), handles: Vec::new() };
                core::mem::swap(self, &mut taken);
                let Registry { mut ids, mut handles } = taken;
                proof {
                    assert(texts(ids@)[i as int] == id@);
                    lemma_position(texts(ids@), handles@, i as int);
                    lemma_remove(texts(ids@), handles@, i as int);
                    assert(texts(ids@.remove(i as int)) =~= texts(ids@).remove(i as int));
                }
                ids.remove(i);
                let handle = handles.remove(i);
                *self = Registry { ids, handles };
                Some(handle)
            },
            None => {
                assert(self@.remove(id@) =~= self@);
                None
            },
        }
    }

    /// How many ids are registered.
    pub fn len(&self) -> (count: usize)
        ensures
            count == self@.dom().len(),
            self@.dom().finite(),
    {
        proof {
            use_type_invariant(self);
            let ids = texts(self.ids@);
            ids.unique_seq_to_set();
            assert(ids.to_set() =~= self@.dom());
        }
        self.ids.len()
    }

    /// A snapshot of the registered ids, each once.
    pub fn ids(&self) -> (snapshot: Vec<String>)
        ensures
            texts(snapshot@).no_duplicates(),
            forall|id: Seq<char>| texts(snapshot@).contains(id) <==> self@.contains_key(id),
    {
        proof { use_type_invariant(self); }
        let mut snapshot: Vec<String> = Vec::new();
        let mut i: usize = 0;
        while i < self.ids.len()
            invariant
                i <= self.ids@.len(),
                snapshot@.len() == i,
                forall|k: int| 0 <= k < i ==> (#[trigger] snapshot@[k])@ == self.ids@[k]@,
            decreases self.ids@.len() - i,
        {
            snapshot.push(self.ids[i].clone());
            i += 1;
        }
        assert(texts(snapshot@) =~= texts(self.ids@));
        snapshot
    }

    /// Empties the registry and hands out every entry that it held.
    pub fn drain(&mut self) -> (entries: Vec<Entry<H>>)
        ensures
            final(self)@ == Map::<Seq<char>, H>::empty(),
            entry_ids(entries@).no_duplicates(),
            entry_map(entries@) == old(self)@,
    {
        proof { use_type_invariant(&*self); }
        let mut taken = Registry { ids: Vec::new(), handles: Vec::new() };
        core::mem::swap(self, &mut taken);
        assert(self@ =~= Map::<Seq<char>, H>::empty());
        let Registry { mut ids, mut handles } = taken;
        let ghost all_ids = texts(ids@);
        let ghost all_handles = handles@;
        let ghost n = all_ids.len() as int;
        let mut entries: Vec<Entry<H>> = Vec::new();
        while ids.len() > 0
            invariant
                all_ids.len() == n,
                all_handles.len() == n,
                all_ids.no_duplicates(),
                ids@.len() == handles@.len(),
                ids@.len() + entries@.len() == n,
                texts(ids@) == all_ids.take(ids@.len() as int),
                handles@ == all_handles.take(ids@.len() as int),
                forall|k: int|
                    0 <= k < entries@.len() ==> (#[trigger] entries@[k]).id@ == all_ids[n - 1 - k]
                        && entries@[k].handle == all_handles[n - 1 - k],
            decreases ids@.len(),
        {
            let ghost m = ids@.len() as int;
            assert(texts(ids@)[m - 1] == all_ids[m - 1]);
            let id = ids.pop().unwrap();
            let handle = handles.pop().unwrap();
            entries.push(Entry { id, handle });
            assert(texts(ids@) =~= all_ids.take(m - 1));
            assert(handles@ =~= all_handles.take(m - 1));
        }
        proof {
            let out_ids = entry_ids(entries@);
            let out_handles = entry_handles(entries@);
            assert forall|k: int| 0 <= k < n implies #[trigger] out_ids[k] == all_ids[n - 1 - k]
                && out_handles[k] == all_handles[n - 1 - k] by {
                assert(entries@[k].id@ == all_ids[n - 1 - k]);
            }
            assert forall|a: int, b: int| 0 <= a < n && 0 <= b < n && a != b implies out_ids[a]
                != out_ids[b] by {}
            assert forall|id: Seq<char>| out_ids.contains(id) == all_ids.contains(id) by {
                if out_ids.contains(id) {
                    let k = out_ids.index_of(id);
                    assert(all_ids[n - 1 - k] == id);
                }
                if all_ids.contains(id) {
                    let k = all_ids.index_of(id);
                    assert(out_ids[n - 1 - k] == id);
                }
            }
            assert forall|id: Seq<char>| out_ids.contains(id) implies #[trigger] as_map(
                out_ids,
                out_handles,
            )[id] == as_map(all_ids, all_handles)[id] by {
                let k = out_ids.index_of(id);
                lemma_position(out_ids, out_handles, k);
                lemma_position(all_ids, all_handles, n - 1 - k);
            }
            assert(as_map(out_ids, out_handles) =~= as_map(all_ids, all_handles));
        }
        entries
    }
}

} // verus!
