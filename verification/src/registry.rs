//! The job registry: which jobs are running, and the handle of each.
//!
//! Taking a job out of the registry is the one point at which a job is
//! finalized: whoever gets the handle owns the process from then on, and
//! nobody else can get it again.

use vstd::prelude::*;

verus! {

/// One running job: its identifier and the handle of its process.
pub struct Entry<H> {
    pub id: String,
    pub handle: H,
}

/// A map from job identifier to handle, in which no identifier occurs twice.
pub struct Registry<H> {
    entries: Vec<Entry<H>>,
}

/// The position of the first entry with the given identifier, if there is one.
pub open spec fn position_of<H>(entries: Seq<Entry<H>>, id: Seq<char>) -> Option<int>
    decreases entries.len(),
{
    if entries.len() == 0 {
        None
    } else if entries[0].id@ == id {
        Some(0)
    } else {
        match position_of(entries.drop_first(), id) {
            Some(i) => Some(i + 1),
            None => None,
        }
    }
}

/// No two entries share an identifier.
pub open spec fn distinct_ids<H>(entries: Seq<Entry<H>>) -> bool {
    forall|i: int, j: int|
        0 <= i < j < entries.len() ==> (#[trigger] entries[i]).id@ != (#[trigger] entries[j]).id@
}

/// The map that a sequence of entries with distinct identifiers stands for.
pub open spec fn as_map<H>(entries: Seq<Entry<H>>) -> Map<Seq<char>, H> {
    Map::new(
        |id: Seq<char>| position_of(entries, id) is Some,
        |id: Seq<char>| entries[position_of(entries, id).unwrap()].handle,
    )
}

/// `position_of` finds an entry exactly when one with that identifier exists,
/// and then it is the first such entry.
pub proof fn lemma_position_of<H>(entries: Seq<Entry<H>>, id: Seq<char>)
    ensures
        match position_of(entries, id) {
            Some(i) => {
                &&& 0 <= i < entries.len()
                &&& entries[i].id@ == id
                &&& forall|j: int| 0 <= j < i ==> (#[trigger] entries[j]).id@ != id
            },
            None => forall|j: int| 0 <= j < entries.len() ==> (#[trigger] entries[j]).id@ != id,
        },
    decreases entries.len(),
{
    if entries.len() == 0 {
    } else if entries[0].id@ == id {
    } else {
        let rest = entries.drop_first();
        lemma_position_of(rest, id);
        match position_of(rest, id) {
            Some(i) => {
                assert forall|j: int| 0 <= j < i + 1 implies (#[trigger] entries[j]).id@ != id by {
                    if j > 0 {
                        assert(rest[j - 1].id@ != id);
                    }
                }
            },
            None => {
                assert forall|j: int| 0 <= j < entries.len() implies (#[trigger] entries[j]).id@
                    != id by {
                    if j > 0 {
                        assert(rest[j - 1].id@ != id);
                    }
                }
            },
        }
    }
}

/// With distinct identifiers, an entry at position `i` is the one that
/// `position_of` finds for its identifier.
pub proof fn lemma_position_of_unique<H>(entries: Seq<Entry<H>>, i: int)
    requires
        distinct_ids(entries),
        0 <= i < entries.len(),
    ensures
        position_of(entries, entries[i].id@) == Some(i),
{
    let id = entries[i].id@;
    lemma_position_of(entries, id);
    match position_of(entries, id) {
        Some(p) => {
            if p < i {
                assert(entries[p].id@ != entries[i].id@);
            } else if p > i {
                assert(entries[i].id@ != id);
            }
        },
        None => {
            assert(entries[i].id@ != id);
        },
    }
}

/// Taking the entry at position `i` out removes its identifier from the map
/// and touches no other.
pub proof fn lemma_remove_entry<H>(entries: Seq<Entry<H>>, i: int)
    requires
        distinct_ids(entries),
        0 <= i < entries.len(),
    ensures
        distinct_ids(entries.remove(i)),
        as_map(entries.remove(i)) == as_map(entries).remove(entries[i].id@),
        as_map(entries).contains_key(entries[i].id@),
        as_map(entries)[entries[i].id@] == entries[i].handle,
{
    let rest = entries.remove(i);
    let gone = entries[i].id@;
    lemma_position_of_unique(entries, i);
    assert forall|k: Seq<char>| #[trigger]
        as_map(rest).contains_key(k) == as_map(entries).remove(gone).contains_key(k) by {
        lemma_position_of(rest, k);
        lemma_position_of(entries, k);
        match position_of(entries, k) {
            Some(q) => {
                if q < i {
                    assert(rest[q].id@ == k);
                } else if q > i {
                    assert(rest[q - 1].id@ == k);
                }
            },
            None => {
                match position_of(rest, k) {
                    Some(p) => {
                        if p < i {
                            assert(entries[p].id@ != k);
                        } else {
                            assert(entries[p + 1].id@ != k);
                        }
                    },
                    None => {},
                }
            },
        }
        match position_of(rest, k) {
            Some(p) => {
                if p < i {
                    assert(entries[p].id@ != gone);
                } else {
                    assert(entries[p + 1].id@ != gone);
                }
            },
            None => {},
        }
    }
    assert forall|k: Seq<char>| #[trigger] as_map(rest).contains_key(k) implies as_map(rest)[k]
        == as_map(entries).remove(gone)[k] by {
        lemma_position_of(rest, k);
        let p = position_of(rest, k).unwrap();
        if p < i {
            lemma_position_of_unique(entries, p);
        } else {
            lemma_position_of_unique(entries, p + 1);
        }
    }
    assert(as_map(rest) =~= as_map(entries).remove(gone));
}

/// Adding an entry whose identifier is new binds that identifier and touches
/// no other.
pub proof fn lemma_push_entry<H>(entries: Seq<Entry<H>>, e: Entry<H>)
    requires
        distinct_ids(entries),
        position_of(entries, e.id@) is None,
    ensures
        distinct_ids(entries.push(e)),
        as_map(entries.push(e)) == as_map(entries).insert(e.id@, e.handle),
{
    let more = entries.push(e);
    lemma_position_of(entries, e.id@);
    assert(distinct_ids(more)) by {
        assert forall|i: int, j: int| 0 <= i < j < more.len() implies (#[trigger] more[i]).id@ != (
        #[trigger] more[j]).id@ by {
            if j < entries.len() {
                assert(entries[i].id@ != entries[j].id@);
            } else {
                assert(entries[i].id@ != e.id@);
            }
        }
    }
    assert forall|k: Seq<char>| #[trigger]
        as_map(more).contains_key(k) == as_map(entries).insert(e.id@, e.handle).contains_key(
            k,
        ) by {
        lemma_position_of(more, k);
        lemma_position_of(entries, k);
        match position_of(entries, k) {
            Some(q) => {
                assert(more[q].id@ == k);
            },
            None => {
                if k == e.id@ {
                    assert(more[entries.len() as int].id@ == k);
                } else {
                    match position_of(more, k) {
                        Some(p) => {
                            if p < entries.len() {
                                assert(entries[p].id@ != k);
                            }
                        },
                        None => {},
                    }
                }
            },
        }
    }
    assert forall|k: Seq<char>| #[trigger] as_map(more).contains_key(k) implies as_map(more)[k]
        == as_map(entries).insert(e.id@, e.handle)[k] by {
        lemma_position_of(more, k);
        let p = position_of(more, k).unwrap();
        if p < entries.len() {
            lemma_position_of_unique(entries, p);
            assert(entries[p].id@ != e.id@);
        }
    }
    assert(as_map(more) =~= as_map(entries).insert(e.id@, e.handle));
}

/// Entries with distinct identifiers stand for a map with as many keys.
pub proof fn lemma_as_map_len<H>(entries: Seq<Entry<H>>)
    requires
        distinct_ids(entries),
    ensures
        as_map(entries).dom().finite(),
        as_map(entries).dom().len() == entries.len(),
    decreases entries.len(),
{
    if entries.len() == 0 {
        assert(as_map(entries).dom() =~= Set::<Seq<char>>::empty());
    } else {
        let init = entries.drop_last();
        let e = entries.last();
        assert(distinct_ids(init)) by {
            assert forall|i: int, j: int| 0 <= i < j < init.len() implies (#[trigger] init[i]).id@
                != (#[trigger] init[j]).id@ by {
                assert(entries[i].id@ != entries[j].id@);
            }
        }
        lemma_as_map_len(init);
        lemma_position_of(init, e.id@);
        if position_of(init, e.id@) is Some {
            let p = position_of(init, e.id@).unwrap();
            assert(entries[p].id@ != entries[entries.len() - 1].id@);
        }
        lemma_push_entry(init, e);
        assert(init.push(e) =~= entries);
        assert(as_map(entries).dom() =~= as_map(init).dom().insert(e.id@));
    }
}

impl<H> Registry<H> {
    #[verifier::type_invariant]
    spec fn wf(&self) -> bool {
        distinct_ids(self.entries@)
    }

    /// The registry as a map from identifier to handle.
    pub closed spec fn view(&self) -> Map<Seq<char>, H> {
        as_map(self.entries@)
    }

    /// An empty registry.
    pub fn new() -> (r: Self)
        ensures
            r@ == Map::<Seq<char>, H>::empty(),
    {
        let r = Registry { entries: Vec::new() };
        assert(r@ =~= Map::<Seq<char>, H>::empty());
        r
    }

    /// The number of running jobs.
    pub fn len(&self) -> (n: usize)
        ensures
            self@.dom().finite(),
            n == self@.dom().len(),
    {
        proof {
            use_type_invariant(self);
            lemma_as_map_len(self.entries@);
        }
        self.entries.len()
    }

    /// Moves the entries out, leaving the registry empty until they are put
    /// back.
    fn take_entries(&mut self) -> (taken: Vec<Entry<H>>)
        ensures
            taken@ == old(self).entries@,
            final(self).entries@ == Seq::<Entry<H>>::empty(),
    {
        let mut taken: Vec<Entry<H>> = Vec::new();
        std::mem::swap(&mut self.entries, &mut taken);
        taken
    }

    fn find(&self, id: &String) -> (r: Option<usize>)
        ensures
            match r {
                Some(i) => position_of(self.entries@, id@) == Some(i as int) && i
                    < self.entries@.len(),
                None => position_of(self.entries@, id@) is None,
            },
    {
        let mut i: usize = 0;
        while i < self.entries.len()
            invariant
                i <= self.entries@.len(),
                forall|j: int| 0 <= j < i ==> (#[trigger] self.entries@[j]).id@ != id@,
            decreases self.entries@.len() - i,
        {
            if self.entries[i].id == *id {
                proof {
                    lemma_position_of(self.entries@, id@);
                }
                return Some(i);
            }
            i += 1;
        }
        proof {
            lemma_position_of(self.entries@, id@);
        }
        None
    }

    /// Registers a job under its identifier. If a job was registered under
    /// that identifier already, its handle is replaced and handed back.
    pub fn insert(&mut self, id: String, handle: H) -> (previous: Option<H>)
        ensures
            final(self)@ == old(self)@.insert(id@, handle),
            previous == (if old(self)@.contains_key(id@) {
                Some(old(self)@[id@])
            } else {
                None::<H>
            }),
    {
        proof {
            use_type_invariant(&*self);
        }
        let found = self.find(&id);
        let mut entries = self.take_entries();
        let previous = match found {
            Some(i) => {
                proof {
                    lemma_remove_entry(entries@, i as int);
                }
                let e = entries.remove(i);
                Some(e.handle)
            },
            None => None,
        };
        proof {
            lemma_position_of(entries@, id@);
            if found is Some {
                lemma_position_of(old(self).entries@, id@);
                assert(!as_map(entries@).contains_key(id@));
            }
            lemma_push_entry(entries@, Entry { id, handle });
            assert(old(self)@.remove(id@).insert(id@, handle) =~= old(self)@.insert(id@, handle));
        }
        entries.push(Entry { id, handle });
        self.entries = entries;
        previous
    }

    /// Takes a job out of the registry. The handle goes to the caller, and to
    /// nobody after: a second removal of the same identifier finds nothing.
    pub fn remove(&mut self, id: &String) -> (taken: Option<H>)
        ensures
            final(self)@ == old(self)@.remove(id@),
            taken == (if old(self)@.contains_key(id@) {
                Some(old(self)@[id@])
            } else {
                None::<H>
            }),
    {
        proof {
            use_type_invariant(&*self);
        }
        match self.find(id) {
            Some(i) => {
                let mut entries = self.take_entries();
                proof {
                    lemma_remove_entry(entries@, i as int);
                    lemma_position_of(entries@, id@);
                }
                let e = entries.remove(i);
                self.entries = entries;
                Some(e.handle)
            },
            None => {
                assert(old(self)@.remove(id@) =~= old(self)@);
                None
            },
        }
    }

    /// The handle of a running job, left where it is.
    pub fn get(&self, id: &String) -> (handle: Option<&H>)
        ensures
            match handle {
                Some(h) => self@.contains_key(id@) && *h == self@[id@],
                None => !self@.contains_key(id@),
            },
    {
        match self.find(id) {
            Some(i) => Some(&self.entries[i].handle),
            None => None,
        }
    }

    /// Whether a job with this identifier is running.
    pub fn contains(&self, id: &String) -> (b: bool)
        ensures
            b == self@.contains_key(id@),
    {
        self.find(id).is_some()
    }
}

} // verus!
