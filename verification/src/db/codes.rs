//! The table of password-reset codes.

use vstd::prelude::*;
use crate::models::auth::{Code, CodeView};

verus! {

/// Mathematical value of the code table: its rows in the order they were
/// inserted, and the id the next row will get.
pub struct CodeTableView {
    pub rows: Seq<CodeView>,
    pub next_id: int,
}

impl CodeTableView {
    /// Whether row `i` belongs to `user_id`.
    pub open spec fn user_at(self, user_id: i32, i: int) -> bool {
        0 <= i < self.rows.len() && self.rows[i].user_id == user_id
    }

    /// Ids are unique and were handed out by the counter, and no user owns
    /// two rows: at most one code is active per user.
    pub open spec fn wf(self) -> bool {
        &&& 1 <= self.next_id <= i32::MAX
        &&& forall|i: int|
            0 <= i < self.rows.len() ==> 1 <= (#[trigger] self.rows[i]).id < self.next_id
        &&& forall|i: int, j: int|
            0 <= i < j < self.rows.len() ==> (#[trigger] self.rows[i]).id != (
            #[trigger] self.rows[j]).id && self.rows[i].user_id != self.rows[j].user_id
    }

    /// The row of `user_id`.
    pub open spec fn by_user(self, user_id: i32) -> Option<CodeView> {
        if exists|i: int| self.user_at(user_id, i) {
            Some(self.rows[choose|i: int| self.user_at(user_id, i)])
        } else {
            None
        }
    }

    /// The row of `user_id`, where it holds `code`.
    pub open spec fn find(self, code: Seq<char>, user_id: i32) -> Option<CodeView> {
        match self.by_user(user_id) {
            Some(row) => if row.code == code {
                Some(row)
            } else {
                None
            },
            None => None,
        }
    }

    /// The number of rows that `user_id` owns among the first `n`.
    pub open spec fn count_for(self, user_id: i32, n: int) -> nat
        decreases n,
    {
        if n <= 0 {
            0
        } else {
            self.count_for(user_id, n - 1) + if self.rows[n - 1].user_id == user_id {
                1nat
            } else {
                0nat
            }
        }
    }

    /// The number of codes that are active for `user_id`.
    pub open spec fn active_codes(self, user_id: i32) -> nat {
        self.count_for(user_id, self.rows.len() as int)
    }

    /// Whether a code can be stored for `user_id`: the user has a row to
    /// overwrite, or the counter has an id left for a new one.
    pub open spec fn accepts(self, user_id: i32) -> bool {
        self.by_user(user_id) is Some || self.next_id < i32::MAX
    }

    /// The table after `code` was stored for `user_id`: the user's row is
    /// overwritten where there is one, a row is added where there is none.
    pub open spec fn upsert(self, code: Seq<char>, user_id: i32) -> CodeTableView {
        if exists|i: int| self.user_at(user_id, i) {
            let i = choose|i: int| self.user_at(user_id, i);
            CodeTableView {
                rows: self.rows.update(i, CodeView { code, ..self.rows[i] }),
                next_id: self.next_id,
            }
        } else {
            CodeTableView {
                rows: self.rows.push(CodeView { id: self.next_id as i32, code, user_id }),
                next_id: self.next_id + 1,
            }
        }
    }

    /// The table after the row of `user_id` was deleted, where it holds
    /// `code`; unchanged where it does not.
    pub open spec fn delete(self, code: Seq<char>, user_id: i32) -> CodeTableView {
        if self.find(code, user_id) is Some {
            let i = choose|i: int| self.user_at(user_id, i);
            CodeTableView { rows: self.rows.remove(i), next_id: self.next_id }
        } else {
            self
        }
    }

    /// In a well-formed table a row that belongs to `user_id` is the one
    /// that `by_user` finds.
    pub proof fn lemma_by_user(self, user_id: i32, i: int)
        requires
            self.wf(),
            self.user_at(user_id, i),
        ensures
            self.by_user(user_id) == Some(self.rows[i]),
            (choose|j: int| self.user_at(user_id, j)) == i,
    {
        let j = choose|j: int| self.user_at(user_id, j);
        if i < j {
            assert(self.rows[i].user_id != self.rows[j].user_id);
        } else if j < i {
            assert(self.rows[j].user_id != self.rows[i].user_id);
        }
    }

    /// Storing a code keeps the table well formed.
    pub proof fn lemma_upsert_wf(self, code: Seq<char>, user_id: i32)
        requires
            self.wf(),
            self.accepts(user_id),
        ensures
            self.upsert(code, user_id).wf(),
    {
        let after = self.upsert(code, user_id);
        assert forall|i: int, j: int| 0 <= i < j < after.rows.len() implies (
        #[trigger] after.rows[i]).id != (#[trigger] after.rows[j]).id && after.rows[i].user_id
            != after.rows[j].user_id by {
            if j == self.rows.len() {
                assert(self.rows[i].id < self.next_id);
                assert(!self.user_at(user_id, i));
            } else {
                assert(self.rows[i].id != self.rows[j].id);
            }
        }
        assert forall|i: int| 0 <= i < after.rows.len() implies 1 <= (
        #[trigger] after.rows[i]).id < after.next_id by {
            if i < self.rows.len() {
                assert(self.rows[i].id < self.next_id);
            }
        }
    }

    /// Deleting a code keeps the table well formed.
    pub proof fn lemma_delete_wf(self, code: Seq<char>, user_id: i32)
        requires
            self.wf(),
        ensures
            self.delete(code, user_id).wf(),
    {
        let after = self.delete(code, user_id);
        if self.find(code, user_id) is Some {
            let k = choose|i: int| self.user_at(user_id, i);
            assert forall|i: int, j: int| 0 <= i < j < after.rows.len() implies (
            #[trigger] after.rows[i]).id != (#[trigger] after.rows[j]).id
                && after.rows[i].user_id != after.rows[j].user_id by {
                let a = if i < k { i } else { i + 1 };
                let b = if j < k { j } else { j + 1 };
                assert(self.rows[a].id != self.rows[b].id);
            }
            assert forall|i: int| 0 <= i < after.rows.len() implies 1 <= (
            #[trigger] after.rows[i]).id < after.next_id by {
                let a = if i < k { i } else { i + 1 };
                assert(self.rows[a].id < self.next_id);
            }
        }
    }
}

/// The code table: what the relation `codes` holds.
pub struct CodeTable {
    rows: Vec<Code>,
    next_id: i32,
}

impl View for CodeTable {
    type V = CodeTableView;

    closed spec fn view(&self) -> CodeTableView {
        CodeTableView { rows: self.rows@.map_values(|c: Code| c@), next_id: self.next_id as int }
    }
}

/// The value of an optional code.
pub open spec fn code_view(code: Option<Code>) -> Option<CodeView> {
    match code {
        Some(c) => Some(c@),
        None => None,
    }
}

impl CodeTable {
    /// Every table is well formed, at all times.
    #[verifier::type_invariant]
    pub open spec fn inv(self) -> bool {
        self@.wf()
    }

    /// An empty table whose first id is 1.
    pub fn new() -> (table: CodeTable)
        ensures
            table@.rows.len() == 0,
            table@.next_id == 1,
            table@.wf(),
    {
        CodeTable { rows: Vec::new(), next_id: 1 }
    }

    fn position_by_user(&self, user_id: i32) -> (r: Option<usize>)
        ensures
            match r {
                Some(i) => self@.user_at(user_id, i as int),
                None => forall|i: int| !self@.user_at(user_id, i),
            },
    {
        let mut i: usize = 0;
        while i < self.rows.len()
            invariant
                i <= self.rows.len(),
                forall|j: int| 0 <= j < i ==> self@.rows[j].user_id != user_id,
            decreases self.rows.len() - i,
        {
            if self.rows[i].user_id == user_id {
                return Some(i);
            }
            i = i + 1;
        }
        None
    }

    /// The row of `user_id`, where it holds `code`.
    pub fn select(&self, code: &String, user_id: i32) -> (found: Option<Code>)
        ensures
            code_view(found) == self@.find(code@, user_id),
    {
        proof {
            use_type_invariant(self);
        }
        match self.position_by_user(user_id) {
            Some(i) => {
                proof {
                    self@.lemma_by_user(user_id, i as int);
                }
                if self.rows[i].code == *code {
                    Some(self.rows[i].clone())
                } else {
                    None
                }
            },
            None => None,
        }
    }

    /// Stores `code` for `user_id`, over the code the user had. `false`, and
    /// no change, where the user has no row and no id is left for one.
    pub fn upsert(&mut self, code: String, user_id: i32) -> (stored: bool)
        ensures
            final(self)@.wf(),
            stored == old(self)@.accepts(user_id),
            final(self)@ == if stored {
                old(self)@.upsert(code@, user_id)
            } else {
                old(self)@
            },
    {
        proof {
            use_type_invariant(&*self);
        }
        let ghost before = self@;
        match self.position_by_user(user_id) {
            Some(i) => {
                proof {
                    before.lemma_by_user(user_id, i as int);
                    before.lemma_upsert_wf(code@, user_id);
                }
                let mut rows: Vec<Code> = Vec::new();
                std::mem::swap(&mut rows, &mut self.rows);
                let next_id = self.next_id;
                let row = Code { id: rows[i].id, code, user_id };
                rows.set(i, row);
                proof {
                    assert(rows@.map_values(|c: Code| c@) =~= before.upsert(code@, user_id).rows);
                }
                *self = CodeTable { rows, next_id };
                true
            },
            None => {
                if self.next_id == i32::MAX {
                    return false;
                }
                proof {
                    before.lemma_upsert_wf(code@, user_id);
                }
                let id = self.next_id;
                let mut rows: Vec<Code> = Vec::new();
                std::mem::swap(&mut rows, &mut self.rows);
                rows.push(Code { id, code, user_id });
                proof {
                    assert(rows@.map_values(|c: Code| c@) =~= before.upsert(code@, user_id).rows);
                }
                *self = CodeTable { rows, next_id: id + 1 };
                true
            },
        }
    }

    /// Deletes the row of `user_id` where it holds `code`, and says whether
    /// it did.
    pub fn delete(&mut self, code: &String, user_id: i32) -> (deleted: bool)
        ensures
            final(self)@.wf(),
            deleted == (old(self)@.find(code@, user_id) is Some),
            final(self)@ == old(self)@.delete(code@, user_id),
    {
        proof {
            use_type_invariant(&*self);
        }
        let ghost before = self@;
        match self.position_by_user(user_id) {
            Some(i) => {
                proof {
                    before.lemma_by_user(user_id, i as int);
                    before.lemma_delete_wf(code@, user_id);
                }
                if self.rows[i].code == *code {
                    let mut rows: Vec<Code> = Vec::new();
                    std::mem::swap(&mut rows, &mut self.rows);
                    let next_id = self.next_id;
                    rows.remove(i);
                    proof {
                        assert(rows@.map_values(|c: Code| c@) =~= before.delete(
                            code@,
                            user_id,
                        ).rows);
                    }
                    *self = CodeTable { rows, next_id };
                    true
                } else {
                    false
                }
            },
            None => false,
        }
    }
}

} // verus!
