//! The table of file metadata.

use vstd::prelude::*;
use crate::models::files::{rows_view, FileData, FileDataView, FileUploadRequest, FileUploadRequestView};

verus! {

/// Mathematical value of the file table: its rows in the order they were
/// inserted, and the id the next row will get.
pub struct FileTableView {
    pub rows: Seq<FileDataView>,
    pub next_id: int,
}

/// Whether `row` is one of those with an id among `ids`, where `ids` is
/// given, and owned by `owner`, where `owner` is given.
pub open spec fn wanted(row: FileDataView, ids: Option<Seq<i32>>, owner: Option<i32>) -> bool {
    &&& ids matches Some(list) ==> list.contains(row.id)
    &&& owner matches Some(user_id) ==> row.user_id == user_id
}

/// The ids of an optional list.
pub open spec fn ids_view(ids: Option<&[i32]>) -> Option<Seq<i32>> {
    match ids {
        Some(list) => Some(list@),
        None => None,
    }
}

impl FileTableView {
    /// Whether row `i` has the id `id`.
    pub open spec fn id_at(self, id: i32, i: int) -> bool {
        0 <= i < self.rows.len() && self.rows[i].id == id
    }

    /// Ids are unique and were handed out by the counter.
    pub open spec fn wf(self) -> bool {
        &&& 1 <= self.next_id <= i32::MAX
        &&& forall|i: int|
            0 <= i < self.rows.len() ==> 1 <= (#[trigger] self.rows[i]).id < self.next_id
        &&& forall|i: int, j: int|
            0 <= i < j < self.rows.len() ==> (#[trigger] self.rows[i]).id != (
            #[trigger] self.rows[j]).id
    }

    /// The row with the id `id`.
    pub open spec fn by_id(self, id: i32) -> Option<FileDataView> {
        if exists|i: int| self.id_at(id, i) {
            Some(self.rows[choose|i: int| self.id_at(id, i)])
        } else {
            None
        }
    }

    /// The row with the id `id`, where `owner` is not given or owns it.
    pub open spec fn by_id_of(self, id: i32, owner: Option<i32>) -> Option<FileDataView> {
        match self.by_id(id) {
            Some(row) => if wanted(row, None, owner) {
                Some(row)
            } else {
                None
            },
            None => None,
        }
    }

    /// The rows with an id among `ids`, where `ids` is given, that `owner`
    /// owns, where `owner` is given; in table order.
    pub open spec fn select(self, ids: Option<Seq<i32>>, owner: Option<i32>) -> Seq<FileDataView> {
        self.rows.filter(|f: FileDataView| wanted(f, ids, owner))
    }

    /// The rows that `user_id` owns, in table order.
    pub open spec fn owned_by(self, user_id: i32) -> Seq<FileDataView> {
        self.select(None, Some(user_id))
    }

    /// The rows whose id is among `ids`, in table order, whoever owns them.
    pub open spec fn with_ids(self, ids: Seq<i32>) -> Seq<FileDataView> {
        self.select(Some(ids), None)
    }

    /// Whether a row can be inserted: the counter has an id left.
    pub open spec fn accepts(self) -> bool {
        self.next_id < i32::MAX
    }

    /// The table after `file` was inserted for `user_id`.
    pub open spec fn insert(self, file: FileUploadRequestView, user_id: i32) -> FileTableView {
        FileTableView {
            rows: self.rows.push(file.row(self.next_id as i32, user_id)),
            next_id: self.next_id + 1,
        }
    }

    /// The table after the row `id` was deleted; unchanged where there is
    /// none.
    pub open spec fn delete(self, id: i32) -> FileTableView {
        if exists|i: int| self.id_at(id, i) {
            let i = choose|i: int| self.id_at(id, i);
            FileTableView { rows: self.rows.remove(i), next_id: self.next_id }
        } else {
            self
        }
    }

    /// In a well-formed table a row with the id `id` is the one that `by_id`
    /// finds.
    pub proof fn lemma_by_id(self, id: i32, i: int)
        requires
            self.wf(),
            self.id_at(id, i),
        ensures
            self.by_id(id) == Some(self.rows[i]),
            (choose|j: int| self.id_at(id, j)) == i,
    {
        let j = choose|j: int| self.id_at(id, j);
        if i < j {
            assert(self.rows[i].id != self.rows[j].id);
        } else if j < i {
            assert(self.rows[j].id != self.rows[i].id);
        }
    }

    /// Inserting a row keeps the table well formed.
    pub proof fn lemma_insert_wf(self, file: FileUploadRequestView, user_id: i32)
        requires
            self.wf(),
            self.accepts(),
        ensures
            self.insert(file, user_id).wf(),
    {
        let after = self.insert(file, user_id);
        assert forall|i: int, j: int| 0 <= i < j < after.rows.len() implies (
        #[trigger] after.rows[i]).id != (#[trigger] after.rows[j]).id by {
            if j == self.rows.len() {
                assert(self.rows[i].id < self.next_id);
            } else {
                assert(self.rows[i].id != self.rows[j].id);
            }
        }
        assert forall|i: int| 0 <= i < after.rows.len() implies 1 <= (
        #[trigger] after.rows[i]).id < after.next_id by {
            if i < self.rows.len() {
                assert(self.rows[i].id < self.next_id);
            }
        }
    }

    /// Deleting a row keeps the table well formed.
    pub proof fn lemma_delete_wf(self, id: i32)
        requires
            self.wf(),
        ensures
            self.delete(id).wf(),
    {
        let after = self.delete(id);
        if exists|i: int| self.id_at(id, i) {
            let k = choose|i: int| self.id_at(id, i);
            assert forall|i: int, j: int| 0 <= i < j < after.rows.len() implies (
            #[trigger] after.rows[i]).id != (#[trigger] after.rows[j]).id by {
                let a = if i < k { i } else { i + 1 };
                let b = if j < k { j } else { j + 1 };
                assert(self.rows[a].id != self.rows[b].id);
            }
            assert forall|i: int| 0 <= i < after.rows.len() implies 1 <= (
            #[trigger] after.rows[i]).id < after.next_id by {
                let a = if i < k { i } else { i + 1 };
                assert(self.rows[a].id < self.next_id);
            }
        }
    }
}

/// The file table: what the relation `files` holds.
pub struct FileTable {
    rows: Vec<FileData>,
    next_id: i32,
}

impl View for FileTable {
    type V = FileTableView;

    closed spec fn view(&self) -> FileTableView {
        FileTableView { rows: rows_view(self.rows@), next_id: self.next_id as int }
    }
}

/// The value of an optional row.
pub open spec fn file_view(file: Option<FileData>) -> Option<FileDataView> {
    match file {
        Some(f) => Some(f@),
        None => None,
    }
}

/// Whether `id` occurs in `ids`.
pub fn contains_id(ids: &[i32], id: i32) -> (r: bool)
    ensures
        r == ids@.contains(id),
{
    let mut i: usize = 0;
    while i < ids.len()
        invariant
            i <= ids.len(),
            forall|j: int| 0 <= j < i ==> ids@[j] != id,
        decreases ids.len() - i,
    {
        if ids[i] == id {
            return true;
        }
        i = i + 1;
    }
    false
}

impl FileTable {
    /// Every table is well formed, at all times.
    #[verifier::type_invariant]
    pub open spec fn inv(self) -> bool {
        self@.wf()
    }

    /// An empty table whose first id is 1.
    pub fn new() -> (table: FileTable)
        ensures
            table@.rows.len() == 0,
            table@.next_id == 1,
            table@.wf(),
    {
        FileTable { rows: Vec::new(), next_id: 1 }
    }

    fn position_by_id(&self, id: i32) -> (r: Option<usize>)
        ensures
            match r {
                Some(i) => self@.id_at(id, i as int),
                None => forall|i: int| !self@.id_at(id, i),
            },
    {
        let mut i: usize = 0;
        while i < self.rows.len()
            invariant
                i <= self.rows.len(),
                forall|j: int| 0 <= j < i ==> self@.rows[j].id != id,
            decreases self.rows.len() - i,
        {
            if self.rows[i].id == id {
                return Some(i);
            }
            i = i + 1;
        }
        None
    }

    /// The row with the id `id`.
    pub fn select(&self, id: i32) -> (found: Option<FileData>)
        ensures
            file_view(found) == self@.by_id(id),
    {
        proof {
            use_type_invariant(self);
        }
        match self.position_by_id(id) {
            Some(i) => {
                proof {
                    self@.lemma_by_id(id, i as int);
                }
                Some(self.rows[i].clone())
            },
            None => None,
        }
    }

    /// The rows with an id among `ids`, where `ids` is given, that `owner`
    /// owns, where `owner` is given.
    pub fn select_where(&self, ids: Option<&[i32]>, owner: Option<i32>) -> (found: Vec<FileData>)
        ensures
            rows_view(found@) == self@.select(ids_view(ids), owner),
    {
        let ghost keep = |f: FileDataView| wanted(f, ids_view(ids), owner);
        let mut found: Vec<FileData> = Vec::new();
        let mut i: usize = 0;
        proof {
            reveal(Seq::filter);
            assert(self@.rows.take(0) =~= Seq::<FileDataView>::empty());
            assert(rows_view(found@) =~= Seq::<FileDataView>::empty());
        }
        while i < self.rows.len()
            invariant
                i <= self.rows.len(),
                keep == |f: FileDataView| wanted(f, ids_view(ids), owner),
                rows_view(found@) == self@.rows.take(i as int).filter(keep),
            decreases self.rows.len() - i,
        {
            let ghost before = rows_view(found@);
            let listed = match ids {
                Some(list) => contains_id(list, self.rows[i].id),
                None => true,
            };
            let owned = match owner {
                Some(user_id) => self.rows[i].user_id == user_id,
                None => true,
            };
            if listed && owned {
                found.push(self.rows[i].clone());
            }
            proof {
                reveal(Seq::filter);
                let next = self@.rows.take(i + 1);
                assert(next.drop_last() =~= self@.rows.take(i as int));
                assert(next.last() == self@.rows[i as int]);
                if listed && owned {
                    assert(rows_view(found@) =~= before.push(self@.rows[i as int]));
                }
            }
            i = i + 1;
        }
        proof {
            assert(self@.rows.take(i as int) =~= self@.rows);
        }
        found
    }

    /// The rows that `user_id` owns.
    pub fn select_by_owner(&self, user_id: i32) -> (found: Vec<FileData>)
        ensures
            rows_view(found@) == self@.owned_by(user_id),
    {
        self.select_where(None, Some(user_id))
    }

    /// The rows whose id is among `ids`, whoever owns them.
    pub fn select_by_ids(&self, ids: &[i32]) -> (found: Vec<FileData>)
        ensures
            rows_view(found@) == self@.with_ids(ids@),
    {
        self.select_where(Some(ids), None)
    }

    /// Inserts `file` for `user_id` and returns the id it got; `None`, and
    /// no change, where no id is left.
    pub fn insert(&mut self, file: FileUploadRequest, user_id: i32) -> (id: Option<i32>)
        ensures
            final(self)@.wf(),
            match id {
                Some(id) => old(self)@.accepts() && id == old(self)@.next_id && final(self)@
                    == old(self)@.insert(file@, user_id),
                None => !old(self)@.accepts() && final(self)@ == old(self)@,
            },
    {
        proof {
            use_type_invariant(&*self);
        }
        if self.next_id == i32::MAX {
            return None;
        }
        let ghost before = self@;
        let id = self.next_id;
        let mut rows: Vec<FileData> = Vec::new();
        std::mem::swap(&mut rows, &mut self.rows);
        rows.push(
            FileData {
                id,
                file_name: file.file_name,
                file_path: file.file_path,
                file_size: file.file_size,
                file_content_type: file.file_content_type,
                file_type: file.file_type,
                user_id,
            },
        );
        proof {
            before.lemma_insert_wf(file@, user_id);
            assert(rows_view(rows@) =~= before.insert(file@, user_id).rows);
        }
        *self = FileTable { rows, next_id: id + 1 };
        Some(id)
    }

    /// Deletes the row `id` and says whether there was one.
    pub fn delete(&mut self, id: i32) -> (deleted: bool)
        ensures
            final(self)@.wf(),
            deleted == (old(self)@.by_id(id) is Some),
            final(self)@ == old(self)@.delete(id),
    {
        proof {
            use_type_invariant(&*self);
        }
        let ghost before = self@;
        match self.position_by_id(id) {
            Some(i) => {
                proof {
                    before.lemma_by_id(id, i as int);
                    before.lemma_delete_wf(id);
                }
                let mut rows: Vec<FileData> = Vec::new();
                std::mem::swap(&mut rows, &mut self.rows);
                let next_id = self.next_id;
                rows.remove(i);
                proof {
                    assert(rows_view(rows@) =~= before.delete(id).rows);
                }
                *self = FileTable { rows, next_id };
                true
            },
            None => false,
        }
    }
}

} // verus!
