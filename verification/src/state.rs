use vstd::prelude::*;
use crate::pipe_id::{PipeId, PipeValue, ObjectRemovalResult};

verus! {

/// One registered pipe under its name.
struct PipeEntry<P> {
    id: PipeId,
    pipe: P,
}

/// The registry of pipes by name. It holds each pipe until the pipe is
/// closed (`drop_pipe`) or replaced by a new pipe of the same name.
pub struct PipeState<P> {
    entries: Vec<PipeEntry<P>>,
    map: Ghost<Map<Seq<char>, P>>,
}

impl<P> View for PipeState<P> {
    type V = Map<Seq<char>, P>;

    closed spec fn view(&self) -> Map<Seq<char>, P> {
        self.map@
    }
}

/// The entries agree with the map: each entry is in it, each name in it has
/// an entry, and no name has two.
spec fn entries_match<P>(entries: Seq<PipeEntry<P>>, map: Map<Seq<char>, P>) -> bool {
    &&& map.dom().finite()
    &&& forall|i: int|
        0 <= i < entries.len() ==> #[trigger] map.dom().contains(entries[i].id@)
            && map[entries[i].id@] == entries[i].pipe
    &&& forall|k: Seq<char>|
        #[trigger] map.dom().contains(k) ==> exists|i: int|
            0 <= i < entries.len() && #[trigger] entries[i].id@ == k
    &&& forall|i: int, j: int|
        0 <= i < entries.len() && 0 <= j < entries.len() && i != j ==> #[trigger] entries[i].id@
            != #[trigger] entries[j].id@
}

impl<P> PipeState<P> {
    /// Every registry's entries agree with its map.
    #[verifier::type_invariant]
    spec fn wf(&self) -> bool {
        entries_match(self.entries@, self.map@)
    }

    /// A registry with no pipe.
    pub fn new() -> (res: PipeState<P>)
        ensures
            res@ == Map::<Seq<char>, P>::empty(),
    {
        PipeState { entries: Vec::new(), map: Ghost(Map::empty()) }
    }

    /// The index of the entry named `key`, if there is one.
    fn find(&self, key: &String) -> (res: Option<usize>)
        ensures
            res is None <==> !self@.dom().contains(key@),
            res matches Some(i) ==> i < self.entries@.len() && self.entries@[i as int].id@
                == key@,
    {
        proof {
            use_type_invariant(self);
        }
        let mut i: usize = 0;
        while i < self.entries.len()
            invariant
                self.wf(),
                i <= self.entries@.len(),
                forall|j: int| 0 <= j < i ==> self.entries@[j].id@ != key@,
            decreases self.entries@.len() - i,
        {
            if self.entries[i].id.0 == *key {
                assert(self.map@.dom().contains(self.entries@[i as int].id@));
                return Some(i);
            }
            i = i + 1;
        }
        proof {
            if self@.dom().contains(key@) {
                let j = choose|j: int| 0 <= j < self.entries@.len() && self.entries@[j].id@ == key@;
                assert(self.entries@[j].id@ == key@);
            }
        }
        None
    }

    /// Whether a pipe of that name is registered.
    pub fn pipe_exists(&self, id: &str) -> (res: bool)
        ensures
            res == self@.dom().contains(id@),
    {
        let key = id.to_owned();
        self.find(&key).is_some()
    }

    /// Takes the contents out of `self`, leaving an empty registry behind.
    fn take(&mut self) -> (res: (Vec<PipeEntry<P>>, Ghost<Map<Seq<char>, P>>))
        ensures
            final(self)@ == Map::<Seq<char>, P>::empty(),
            res.0@ == old(self).entries@,
            res.1@ == old(self)@,
            entries_match(res.0@, res.1@),
    {
        let mut taken = PipeState::new();
        std::mem::swap(self, &mut taken);
        proof {
            use_type_invariant(&taken);
        }
        let PipeState { entries, map } = taken;
        (entries, map)
    }

    /// Registers `pipe` under `name`. A pipe registered under that name
    /// before is dropped: the new one takes its place.
    pub fn new_pipe(&mut self, name: String, pipe: P) -> (res: PipeId)
        ensures
            final(self)@ == old(self)@.insert(name@, pipe),
            res@ == name@,
    {
        proof {
            use_type_invariant(&*self);
        }
        let id = PipeId::new(name);
        let res = id.clone();
        let found = self.find(&id.0);
        let (mut entries, map) = self.take();
        let ghost k = id@;
        let ghost old_entries = entries@;
        let ghost new_map = map@.insert(k, pipe);
        match found {
            Some(i) => {
                entries.set(i, PipeEntry { id, pipe });
                assert forall|kk: Seq<char>| #[trigger]
                    new_map.dom().contains(kk) implies exists|j: int|
                    0 <= j < entries@.len() && #[trigger] entries@[j].id@ == kk by {
                    if kk != k {
                        let j = choose|j: int| 0 <= j < old_entries.len() && old_entries[j].id@ == kk;
                        assert(entries@[j].id@ == kk);
                    } else {
                        assert(entries@[i as int].id@ == kk);
                    }
                }
            },
            None => {
                let ghost old_len = entries@.len();
                entries.push(PipeEntry { id, pipe });
                assert forall|kk: Seq<char>| #[trigger]
                    new_map.dom().contains(kk) implies exists|j: int|
                    0 <= j < entries@.len() && #[trigger] entries@[j].id@ == kk by {
                    if kk != k {
                        let j = choose|j: int| 0 <= j < old_entries.len() && old_entries[j].id@ == kk;
                        assert(entries@[j].id@ == kk);
                    } else {
                        assert(entries@[old_len as int].id@ == kk);
                    }
                }
            },
        }
        *self = PipeState { entries, map: Ghost(new_map) };
        res
    }

    /// A handle to the pipe of that name, if one is registered.
    pub fn get_pipe_value(&self, id: &PipeId) -> (res: Option<PipeValue>)
        ensures
            res is Some <==> self@.dom().contains(id@),
            res matches Some(v) ==> v.0@ == id@,
    {
        if !self.pipe_exists(id.as_str()) {
            return None;
        }
        Some(PipeValue::new(id.clone()))
    }

    /// The pipe of that name, if one is registered.
    pub fn get_pipe(&self, id: &PipeId) -> (res: Option<&P>)
        ensures
            res is Some <==> self@.dom().contains(id@),
            res matches Some(p) ==> *p == self@[id@],
    {
        proof {
            use_type_invariant(self);
        }
        match self.find(&id.0) {
            Some(i) => Some(&self.entries[i].pipe),
            None => None,
        }
    }

    /// Closes the pipe of that name: it leaves the registry and is dropped.
    /// Tells whether there was one.
    pub fn drop_pipe(&mut self, id: &PipeId) -> (res: ObjectRemovalResult)
        ensures
            final(self)@ == old(self)@.remove(id@),
            res == (if old(self)@.dom().contains(id@) {
                ObjectRemovalResult::Removed
            } else {
                ObjectRemovalResult::DoesntExist
            }),
    {
        proof {
            use_type_invariant(&*self);
        }
        let found = self.find(&id.0);
        let (mut entries, map) = self.take();
        let ghost k = id@;
        let ghost old_entries = entries@;
        let ghost new_map = map@.remove(k);
        let removed = match found {
            Some(i) => {
                let entry = entries.remove(i);
                assert forall|ii: int|
                    0 <= ii < entries@.len() implies #[trigger] new_map.dom().contains(
                    entries@[ii].id@,
                ) && new_map[entries@[ii].id@] == entries@[ii].pipe by {
                    if ii < i {
                        assert(entries@[ii] == old_entries[ii]);
                        assert(old_entries[ii].id@ != old_entries[i as int].id@);
                    } else {
                        assert(entries@[ii] == old_entries[ii + 1]);
                        assert(old_entries[ii + 1].id@ != old_entries[i as int].id@);
                    }
                }
                assert forall|kk: Seq<char>| #[trigger]
                    new_map.dom().contains(kk) implies exists|j: int|
                    0 <= j < entries@.len() && #[trigger] entries@[j].id@ == kk by {
                    let j = choose|j: int| 0 <= j < old_entries.len() && old_entries[j].id@ == kk;
                    assert(j != i);
                    if j < i {
                        assert(entries@[j].id@ == kk);
                    } else {
                        assert(entries@[j - 1].id@ == kk);
                    }
                }
                assert forall|a: int, b: int|
                    0 <= a < entries@.len() && 0 <= b < entries@.len() && a != b
                        implies #[trigger] entries@[a].id@ != #[trigger] entries@[b].id@ by {
                    let oa = if a < i { a } else { a + 1 };
                    let ob = if b < i { b } else { b + 1 };
                    assert(entries@[a] == old_entries[oa]);
                    assert(entries@[b] == old_entries[ob]);
                }
                assert(entries_match(entries@, new_map));
                Some(entry)
            },
            None => {
                assert(new_map =~= map@);
                assert(entries_match(entries@, new_map));
                None
            },
        };
        *self = PipeState { entries, map: Ghost(new_map) };
        ObjectRemovalResult::from_removed(removed)
    }

    /// The names of the registered pipes, each once.
    pub fn list_pipes(&self) -> (res: Vec<PipeId>)
        ensures
            forall|i: int| 0 <= i < res@.len() ==> self@.dom().contains(#[trigger] res@[i]@),
            forall|k: Seq<char>|
                #[trigger] self@.dom().contains(k) ==> exists|i: int|
                    0 <= i < res@.len() && #[trigger] res@[i]@ == k,
            forall|i: int, j: int|
                0 <= i < res@.len() && 0 <= j < res@.len() && i != j ==> #[trigger] res@[i]@
                    != #[trigger] res@[j]@,
    {
        proof {
            use_type_invariant(self);
        }
        let mut res: Vec<PipeId> = Vec::new();
        let mut i: usize = 0;
        while i < self.entries.len()
            invariant
                self.wf(),
                i <= self.entries@.len(),
                res@.len() == i,
                forall|j: int| 0 <= j < i ==> #[trigger] res@[j]@ == self.entries@[j].id@,
            decreases self.entries@.len() - i,
        {
            res.push(self.entries[i].id.clone());
            i = i + 1;
        }
        assert forall|k: Seq<char>| #[trigger] self@.dom().contains(k) implies exists|j: int|
            0 <= j < res@.len() && #[trigger] res@[j]@ == k by {
            let j = choose|j: int| 0 <= j < self.entries@.len() && self.entries@[j].id@ == k;
            assert(res@[j]@ == k);
        }
        assert forall|a: int, b: int|
            0 <= a < res@.len() && 0 <= b < res@.len() && a != b implies #[trigger] res@[a]@
                != #[trigger] res@[b]@ by {
            assert(res@[a]@ == self.entries@[a].id@);
            assert(res@[b]@ == self.entries@[b].id@);
        }
        res
    }
}

} // verus!
