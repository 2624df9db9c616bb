use vstd::prelude::*;

verus! {

/// A failure of the path store.
#[derive(Clone, Debug)]
pub enum StoreError {
    /// The backing store could not be created or opened.
    StorageUnavailable(String),
    /// An operation failed on a reachable store.
    StorageError(String),
}

impl StoreError {
    pub open spec fn message_spec(&self) -> Seq<char> {
        match *self {
            StoreError::StorageUnavailable(m) => m@,
            StoreError::StorageError(m) => m@,
        }
    }

    /// The message that the caller surfaces.
    pub fn message(&self) -> (r: String)
        ensures
            r@ == self.message_spec(),
    {
        match self {
            StoreError::StorageUnavailable(m) => m.clone(),
            StoreError::StorageError(m) => m.clone(),
        }
    }
}


/// The text of every string in a sequence.
pub open spec fn string_views(s: Seq<String>) -> Seq<Seq<char>> {
    s.map_values(|x: String| x@)
}

/// The position of the first failed row, if any.
pub open spec fn first_failed_row(rows: Seq<Result<String, String>>, k: int) -> bool {
    &&& 0 <= k < rows.len()
    &&& rows[k] is Err
    &&& forall|j: int| 0 <= j < k ==> #[trigger] rows[j] is Ok
}

/// Gathers the paths read row by row from the backing store. Every row read:
/// the paths, in row order. A row that failed to read: that row's error,
/// as `StorageError`, for the first such row.
pub fn collect_paths(rows: &Vec<Result<String, String>>) -> (r: Result<Vec<String>, StoreError>)
    ensures
        r is Ok <==> forall|i: int| 0 <= i < rows@.len() ==> #[trigger] rows@[i] is Ok,
        r is Ok ==> {
            &&& r->Ok_0@.len() == rows@.len()
            &&& forall|i: int| 0 <= i < rows@.len() ==> #[trigger] r->Ok_0@[i]@ == rows@[i]->Ok_0@
        },
        r is Err ==> exists|k: int| {
            &&& #[trigger] first_failed_row(rows@, k)
            &&& r->Err_0 is StorageError
            &&& r->Err_0->StorageError_0@ == rows@[k]->Err_0@
        },
{
    let mut paths: Vec<String> = Vec::new();
    let mut i: usize = 0;
    while i < rows.len()
        invariant
            i <= rows@.len(),
            paths@.len() == i,
            forall|j: int| 0 <= j < i ==> #[trigger] rows@[j] is Ok,
            forall|j: int| 0 <= j < i ==> #[trigger] paths@[j]@ == rows@[j]->Ok_0@,
        decreases rows.len() - i,
    {
        match &rows[i] {
            Ok(p) => paths.push(p.clone()),
            Err(e) => {
                let r = Err(StoreError::StorageError(e.clone()));
                proof {
                    assert(first_failed_row(rows@, i as int));
                }
                return r;
            },
        }
        i = i + 1;
    }
    Ok(paths)
}

/// One stored path with the id the store gave it.
#[derive(Clone, Debug)]
pub struct PathEntry {
    pub id: u64,
    pub path: String,
}

/// What a path registry holds: its entries as (id, path), in id order, and the
/// id that the next insert will take.
pub struct RegistryView {
    pub entries: Seq<(u64, Seq<char>)>,
    pub next_id: u64,
}

impl RegistryView {
    /// Ids rise with position and all lie below the next id, so none is reused.
    pub open spec fn wf(self) -> bool {
        &&& forall|i: int, j: int|
            0 <= i < j < self.entries.len() ==> #[trigger] self.entries[i].0
                < #[trigger] self.entries[j].0
        &&& forall|i: int| 0 <= i < self.entries.len() ==> #[trigger] self.entries[i].0 < self.next_id
    }

    /// The stored paths, in id order.
    pub open spec fn paths(self) -> Seq<Seq<char>> {
        self.entries.map_values(|e: (u64, Seq<char>)| e.1)
    }

    /// The registry after a successful insert of `p`.
    pub open spec fn added(self, p: Seq<char>) -> RegistryView {
        RegistryView { entries: self.entries.push((self.next_id, p)), next_id: (self.next_id + 1) as u64 }
    }

    /// The registry after inserting each of `ps`, in order.
    pub open spec fn added_all(self, ps: Seq<Seq<char>>) -> RegistryView
        decreases ps.len(),
    {
        if ps.len() == 0 {
            self
        } else {
            self.added_all(ps.drop_last()).added(ps.last())
        }
    }

    /// The registry after every entry is removed; ids already given stay spent.
    pub open spec fn cleared(self) -> RegistryView {
        RegistryView { entries: Seq::empty(), next_id: self.next_id }
    }
}

/// An in-memory path store: the registry's rules without a backing file, for
/// callers and tests that want an isolated store.
pub struct PathRegistry {
    entries: Vec<PathEntry>,
    next_id: u64,
}

impl View for PathRegistry {
    type V = RegistryView;

    closed spec fn view(&self) -> RegistryView {
        RegistryView {
            entries: self.entries@.map_values(|e: PathEntry| (e.id, e.path@)),
            next_id: self.next_id,
        }
    }
}

impl PathRegistry {
    /// An empty registry whose first entry takes id 1.
    pub fn new() -> (r: PathRegistry)
        ensures
            r@.wf(),
            r@.entries.len() == 0,
            r@.next_id == 1,
    {
        let r = PathRegistry { entries: Vec::new(), next_id: 1 };
        proof {
            assert(r@.entries =~= Seq::<(u64, Seq<char>)>::empty());
        }
        r
    }

    /// Ensures the registry exists. Always succeeds and changes nothing, however
    /// often it is called.
    pub fn initialize(&mut self) -> (r: Result<(), StoreError>)
        ensures
            r is Ok,
            final(self)@ == old(self)@,
    {
        Ok(())
    }

    /// Inserts `path` under the next id. Fails with `StorageError`, changing
    /// nothing, only when the ids are spent.
    pub fn add(&mut self, path: String) -> (r: Result<(), StoreError>)
        requires
            old(self)@.wf(),
        ensures
            final(self)@.wf(),
            r is Err <==> old(self)@.next_id == u64::MAX,
            r is Err ==> r->Err_0 is StorageError && final(self)@ == old(self)@,
            r is Ok ==> final(self)@ == old(self)@.added(path@),
    {
        if self.next_id == u64::MAX {
            return Err(StoreError::StorageError(String::from_str("no path ids left")));
        }
        let ghost before = self@;
        self.entries.push(PathEntry { id: self.next_id, path });
        self.next_id = self.next_id + 1;
        proof {
            assert(self@.entries =~= before.entries.push((before.next_id, path@)));
        }
        Ok(())
    }

    /// Removes every entry. Always succeeds; on an empty registry it changes nothing.
    pub fn delete_all(&mut self) -> (r: Result<(), StoreError>)
        requires
            old(self)@.wf(),
        ensures
            r is Ok,
            final(self)@.wf(),
            final(self)@ == old(self)@.cleared(),
    {
        self.entries = Vec::new();
        proof {
            assert(self@.entries =~= Seq::<(u64, Seq<char>)>::empty());
        }
        Ok(())
    }

    /// Every stored path, in id order.
    pub fn list(&self) -> (r: Result<Vec<String>, StoreError>)
        ensures
            r is Ok,
            string_views(r->Ok_0@) == self@.paths(),
    {
        let mut out: Vec<String> = Vec::new();
        let mut i: usize = 0;
        while i < self.entries.len()
            invariant
                i <= self.entries@.len(),
                out@.len() == i,
                forall|j: int| 0 <= j < i ==> #[trigger] out@[j]@ == self.entries@[j].path@,
            decreases self.entries.len() - i,
        {
            out.push(self.entries[i].path.clone());
            i = i + 1;
        }
        proof {
            assert(string_views(out@) =~= self@.paths());
        }
        Ok(out)
    }

    /// Every stored entry with its id, in id order.
    pub fn entries(&self) -> (r: &Vec<PathEntry>)
        ensures
            r@.map_values(|e: PathEntry| (e.id, e.path@)) == self@.entries,
    {
        &self.entries
    }
}


/// A path that was added is listed afterwards, after whatever was stored
/// before; adding the same path twice lists it twice.
pub proof fn law_add_then_list(s: RegistryView, p: Seq<char>)
    ensures
        s.added(p).paths() == s.paths().push(p),
        s.added(p).paths().contains(p),
        s.added(p).added(p).paths() == s.paths() + seq![p, p],
{
    assert(s.added(p).paths() =~= s.paths().push(p));
    assert(s.added(p).paths()[s.paths().len() as int] == p);
    assert(s.added(p).added(p).paths() =~= s.paths() + seq![p, p]);
}

/// Whatever paths were added, deleting all of them leaves nothing listed, and
/// the ids already given stay spent.
pub proof fn law_delete_all_clears(s: RegistryView, ps: Seq<Seq<char>>)
    ensures
        s.added_all(ps).cleared().paths() == Seq::<Seq<char>>::empty(),
        s.added_all(ps).cleared().next_id == s.added_all(ps).next_id,
{
    assert(s.added_all(ps).cleared().paths() =~= Seq::<Seq<char>>::empty());
}

/// Deleting all entries of an empty registry changes nothing and leaves
/// nothing listed.
pub proof fn law_delete_all_on_empty(s: RegistryView)
    requires
        s.paths().len() == 0,
    ensures
        s.cleared() == s,
        s.cleared().paths() == Seq::<Seq<char>>::empty(),
{
    assert(s.entries =~= Seq::<(u64, Seq<char>)>::empty());
    assert(s.cleared().paths() =~= Seq::<Seq<char>>::empty());
}

} // verus!
