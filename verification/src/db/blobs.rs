//! The byte store: the contents of uploaded files, by storage path.

use vstd::prelude::*;

verus! {

/// The byte store. Its value is the map from each storage path to the bytes
/// kept under it.
pub struct ByteStore {
    entries: Vec<Blob>,
}

/// One stored file: its path and its bytes.
pub struct Blob {
    pub path: String,
    pub bytes: Vec<u8>,
}

/// Whether entry `i` of `entries` is `path`.
pub open spec fn path_at(entries: Seq<Blob>, path: Seq<char>, i: int) -> bool {
    0 <= i < entries.len() && entries[i].path@ == path
}

/// No path occurs twice.
pub open spec fn distinct_paths(entries: Seq<Blob>) -> bool {
    forall|i: int, j: int|
        0 <= i < j < entries.len() ==> (#[trigger] entries[i]).path@ != (
        #[trigger] entries[j]).path@
}

/// The map that `entries` stands for.
pub open spec fn blob_map(entries: Seq<Blob>) -> Map<Seq<char>, Seq<u8>> {
    Map::new(
        |path: Seq<char>| exists|i: int| path_at(entries, path, i),
        |path: Seq<char>| entries[choose|i: int| path_at(entries, path, i)].bytes@,
    )
}

/// With distinct entries, entry `i` is what the map holds under its path.
pub proof fn lemma_blob_at(entries: Seq<Blob>, i: int)
    requires
        distinct_paths(entries),
        0 <= i < entries.len(),
    ensures
        blob_map(entries).contains_key(entries[i].path@),
        blob_map(entries)[entries[i].path@] == entries[i].bytes@,
{
    let path = entries[i].path@;
    assert(path_at(entries, path, i));
    let j = choose|j: int| path_at(entries, path, j);
    if i < j {
        assert(entries[i].path@ != entries[j].path@);
    } else if j < i {
        assert(entries[j].path@ != entries[i].path@);
    }
}

impl View for ByteStore {
    type V = Map<Seq<char>, Seq<u8>>;

    closed spec fn view(&self) -> Map<Seq<char>, Seq<u8>> {
        blob_map(self.entries@)
    }
}

impl ByteStore {
    #[verifier::type_invariant]
    pub closed spec fn inv(self) -> bool {
        distinct_paths(self.entries@)
    }

    /// A store that holds nothing.
    pub fn new() -> (store: ByteStore)
        ensures
            store@ == Map::<Seq<char>, Seq<u8>>::empty(),
    {
        let store = ByteStore { entries: Vec::new() };
        assert(store@ =~= Map::<Seq<char>, Seq<u8>>::empty());
        store
    }

    fn position(&self, path: &String) -> (r: Option<usize>)
        ensures
            match r {
                Some(i) => path_at(self.entries@, path@, i as int),
                None => forall|i: int| !path_at(self.entries@, path@, i),
            },
    {
        let mut i: usize = 0;
        while i < self.entries.len()
            invariant
                i <= self.entries.len(),
                forall|j: int| 0 <= j < i ==> self.entries@[j].path@ != path@,
            decreases self.entries.len() - i,
        {
            if self.entries[i].path == *path {
                return Some(i);
            }
            i = i + 1;
        }
        None
    }

    /// Whether bytes are kept under `path`.
    pub fn holds(&self, path: &String) -> (r: bool)
        ensures
            r == self@.contains_key(path@),
    {
        self.position(path).is_some()
    }

    /// The number of bytes kept under `path`.
    pub fn size_of(&self, path: &String) -> (r: Option<usize>)
        ensures
            match r {
                Some(n) => self@.contains_key(path@) && n == self@[path@].len(),
                None => !self@.contains_key(path@),
            },
    {
        proof {
            use_type_invariant(self);
        }
        match self.position(path) {
            Some(i) => {
                proof {
                    lemma_blob_at(self.entries@, i as int);
                }
                Some(self.entries[i].bytes.len())
            },
            None => None,
        }
    }

    /// The bytes kept under `path`.
    pub fn read(&self, path: &String) -> (r: Option<Vec<u8>>)
        ensures
            match r {
                Some(bytes) => self@.contains_key(path@) && bytes@ == self@[path@],
                None => !self@.contains_key(path@),
            },
    {
        proof {
            use_type_invariant(self);
        }
        match self.position(path) {
            Some(i) => {
                proof {
                    lemma_blob_at(self.entries@, i as int);
                }
                let stored = &self.entries[i].bytes;
                let mut bytes: Vec<u8> = Vec::new();
                let mut k: usize = 0;
                while k < stored.len()
                    invariant
                        k <= stored.len(),
                        bytes@ == stored@.take(k as int),
                    decreases stored.len() - k,
                {
                    bytes.push(stored[k]);
                    assert(bytes@ =~= stored@.take(k + 1));
                    k = k + 1;
                }
                assert(stored@.take(k as int) =~= stored@);
                Some(bytes)
            },
            None => None,
        }
    }

    /// Keeps `bytes` under `path`, in place of whatever was kept there.
    pub fn write(&mut self, path: String, bytes: Vec<u8>)
        ensures
            final(self)@ == old(self)@.insert(path@, bytes@),
    {
        proof {
            use_type_invariant(&*self);
        }
        let ghost before = self.entries@;
        let found = self.position(&path);
        let mut entries: Vec<Blob> = Vec::new();
        std::mem::swap(&mut entries, &mut self.entries);
        match found {
            Some(i) => {
                entries.set(i, Blob { path, bytes });
            },
            None => {
                entries.push(Blob { path, bytes });
            },
        }
        proof {
            assert(distinct_paths(entries@)) by {
                assert forall|i: int, j: int| 0 <= i < j < entries@.len() implies (
                #[trigger] entries@[i]).path@ != (#[trigger] entries@[j]).path@ by {
                    if j < before.len() {
                        assert(before[i].path@ != before[j].path@);
                    } else {
                        assert(!path_at(before, path@, i));
                    }
                }
            }
            let after = blob_map(entries@);
            let wanted = blob_map(before).insert(path@, bytes@);
            assert forall|p: Seq<char>| after.contains_key(p) <==> wanted.contains_key(p) by {
                if after.contains_key(p) {
                    let i = choose|i: int| path_at(entries@, p, i);
                    if i < before.len() {
                        assert(path_at(before, p, i));
                    }
                }
                if wanted.contains_key(p) && p != path@ {
                    let i = choose|i: int| path_at(before, p, i);
                    assert(path_at(entries@, p, i));
                }
                if p == path@ {
                    match found {
                        Some(i) => {
                            assert(path_at(entries@, p, i as int));
                        },
                        None => {
                            assert(path_at(entries@, p, before.len() as int));
                        },
                    }
                }
            }
            assert forall|p: Seq<char>| after.contains_key(p) implies after[p] == wanted[p] by {
                let i = choose|i: int| path_at(entries@, p, i);
                lemma_blob_at(entries@, i);
                if p != path@ {
                    assert(path_at(before, p, i));
                    lemma_blob_at(before, i);
                } else {
                    match found {
                        Some(k) => {
                            if i < k {
                                assert(entries@[i].path@ != entries@[k as int].path@);
                            } else if k < i {
                                assert(entries@[k as int].path@ != entries@[i].path@);
                            }
                        },
                        None => {
                            if i < before.len() {
                                assert(path_at(before, p, i));
                            }
                        },
                    }
                }
            }
            assert(after =~= wanted);
        }
        *self = ByteStore { entries };
    }

    /// Drops what is kept under `path` and says whether anything was.
    pub fn remove(&mut self, path: &String) -> (removed: bool)
        ensures
            removed == old(self)@.contains_key(path@),
            final(self)@ == old(self)@.remove(path@),
    {
        proof {
            use_type_invariant(&*self);
        }
        let ghost before = self.entries@;
        match self.position(path) {
            None => {
                assert(self@ =~= self@.remove(path@));
                false
            },
            Some(k) => {
                let mut entries: Vec<Blob> = Vec::new();
                std::mem::swap(&mut entries, &mut self.entries);
                entries.remove(k);
                proof {
                    assert(distinct_paths(entries@)) by {
                        assert forall|i: int, j: int| 0 <= i < j < entries@.len() implies (
                #[trigger] entries@[i]).path@ != (#[trigger] entries@[j]).path@ by {
                            let a = if i < k { i } else { i + 1 };
                            let b = if j < k { j } else { j + 1 };
                            assert(before[a].path@ != before[b].path@);
                        }
                    }
                    let after = blob_map(entries@);
                    let wanted = blob_map(before).remove(path@);
                    assert forall|p: Seq<char>| after.contains_key(p) <==> wanted.contains_key(
                        p,
                    ) by {
                        if after.contains_key(p) {
                            let i = choose|i: int| path_at(entries@, p, i);
                            let a = if i < k { i } else { i + 1 };
                            assert(path_at(before, p, a));
                            if a < k {
                                assert(before[a].path@ != before[k as int].path@);
                            } else {
                                assert(before[k as int].path@ != before[a].path@);
                            }
                        }
                        if wanted.contains_key(p) {
                            let a = choose|i: int| path_at(before, p, i);
                            let i = if a < k { a } else { a - 1 };
                            assert(path_at(entries@, p, i));
                        }
                    }
                    assert forall|p: Seq<char>| after.contains_key(p) implies after[p]
                        == wanted[p] by {
                        let i = choose|i: int| path_at(entries@, p, i);
                        let a = if i < k { i } else { i + 1 };
                        lemma_blob_at(entries@, i);
                        assert(path_at(before, p, a));
                        lemma_blob_at(before, a);
                    }
                    assert(after =~= wanted);
                }
                *self = ByteStore { entries };
                true
            },
        }
    }
}

} // verus!
