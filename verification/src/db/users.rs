//! The user table.

use vstd::prelude::*;
use crate::models::user::{User, UserView};

verus! {

/// Mathematical value of the user table: its rows in the order they were
/// inserted, and the id the next row will get.
pub struct UserTableView {
    pub rows: Seq<UserView>,
    pub next_id: int,
}

impl UserTableView {
    /// Whether row `i` belongs to `email`.
    pub open spec fn email_at(self, email: Seq<char>, i: int) -> bool {
        0 <= i < self.rows.len() && self.rows[i].email == email
    }

    /// Whether row `i` has the id `id`.
    pub open spec fn id_at(self, id: i32, i: int) -> bool {
        0 <= i < self.rows.len() && self.rows[i].id == id
    }

    /// Ids and emails are unique, every id was handed out by the counter and
    /// every row holds a password hash.
    pub open spec fn wf(self) -> bool {
        &&& 1 <= self.next_id <= i32::MAX
        &&& forall|i: int|
            0 <= i < self.rows.len() ==> 1 <= (#[trigger] self.rows[i]).id < self.next_id
                && self.rows[i].password is Some
        &&& forall|i: int, j: int|
            0 <= i < j < self.rows.len() ==> (#[trigger] self.rows[i]).id != (
            #[trigger] self.rows[j]).id && self.rows[i].email != self.rows[j].email
    }

    /// The user registered under `email`.
    pub open spec fn by_email(self, email: Seq<char>) -> Option<UserView> {
        if exists|i: int| self.email_at(email, i) {
            Some(self.rows[choose|i: int| self.email_at(email, i)])
        } else {
            None
        }
    }

    /// The user with the id `id`.
    pub open spec fn by_id(self, id: i32) -> Option<UserView> {
        if exists|i: int| self.id_at(id, i) {
            Some(self.rows[choose|i: int| self.id_at(id, i)])
        } else {
            None
        }
    }

    /// Whether a user can be inserted under `email`: the email is free and
    /// the counter has an id left.
    pub open spec fn accepts(self, email: Seq<char>) -> bool {
        self.by_email(email) is None && self.next_id < i32::MAX
    }

    /// The table after a user was inserted.
    pub open spec fn insert(self, email: Seq<char>, password: Seq<char>, name: Seq<char>)
        -> UserTableView {
        UserTableView {
            rows: self.rows.push(
                UserView { id: self.next_id as i32, email, password: Some(password), name },
            ),
            next_id: self.next_id + 1,
        }
    }

    /// The table after the hash of user `id` was replaced; unchanged where
    /// there is no such user.
    pub open spec fn set_password(self, id: i32, password: Seq<char>) -> UserTableView {
        if exists|i: int| self.id_at(id, i) {
            let i = choose|i: int| self.id_at(id, i);
            UserTableView {
                rows: self.rows.update(i, UserView { password: Some(password), ..self.rows[i] }),
                next_id: self.next_id,
            }
        } else {
            self
        }
    }

    /// In a well-formed table a row that belongs to `email` is the one that
    /// `by_email` finds.
    pub proof fn lemma_by_email(self, email: Seq<char>, i: int)
        requires
            self.wf(),
            self.email_at(email, i),
        ensures
            self.by_email(email) == Some(self.rows[i]),
    {
        let j = choose|j: int| self.email_at(email, j);
        if i < j {
            assert(self.rows[i].email != self.rows[j].email);
        } else if j < i {
            assert(self.rows[j].email != self.rows[i].email);
        }
    }

    /// In a well-formed table a row with the id `id` is the one that `by_id`
    /// finds.
    pub proof fn lemma_by_id(self, id: i32, i: int)
        requires
            self.wf(),
            self.id_at(id, i),
        ensures
            self.by_id(id) == Some(self.rows[i]),
            (choose|j: int| self.id_at(id, j)) == i,
    {
        let j = choose|j: int| self.id_at(id, j);
        if i < j {
            assert(self.rows[i].id != self.rows[j].id);
        } else if j < i {
            assert(self.rows[j].id != self.rows[i].id);
        }
    }

    /// Inserting under a free email keeps the table well formed.
    pub proof fn lemma_insert_wf(self, email: Seq<char>, password: Seq<char>, name: Seq<char>)
        requires
            self.wf(),
            self.accepts(email),
        ensures
            self.insert(email, password, name).wf(),
    {
        let after = self.insert(email, password, name);
        assert forall|i: int, j: int| 0 <= i < j < after.rows.len() implies (
        #[trigger] after.rows[i]).id != (#[trigger] after.rows[j]).id && after.rows[i].email
            != after.rows[j].email by {
            if j == self.rows.len() {
                assert(self.rows[i].id < self.next_id);
                assert(!self.email_at(email, i));
            } else {
                assert(self.rows[i].id != self.rows[j].id);
            }
        }
        assert forall|i: int| 0 <= i < after.rows.len() implies 1 <= (
        #[trigger] after.rows[i]).id < after.next_id && after.rows[i].password is Some by {
            if i < self.rows.len() {
                assert(self.rows[i].id < self.next_id);
            }
        }
    }

    /// Replacing a hash keeps the table well formed.
    pub proof fn lemma_set_password_wf(self, id: i32, password: Seq<char>)
        requires
            self.wf(),
        ensures
            self.set_password(id, password).wf(),
    {
        let after = self.set_password(id, password);
        if exists|i: int| self.id_at(id, i) {
            assert forall|i: int, j: int| 0 <= i < j < after.rows.len() implies (
            #[trigger] after.rows[i]).id != (#[trigger] after.rows[j]).id && after.rows[i].email
                != after.rows[j].email by {
                assert(self.rows[i].id != self.rows[j].id);
            }
            assert forall|i: int| 0 <= i < after.rows.len() implies 1 <= (
            #[trigger] after.rows[i]).id < after.next_id && after.rows[i].password is Some by {
                assert(self.rows[i].id < self.next_id);
            }
        }
    }
}

/// The user table: what the relation `users` holds.
pub struct UserTable {
    rows: Vec<User>,
    next_id: i32,
}

impl View for UserTable {
    type V = UserTableView;

    closed spec fn view(&self) -> UserTableView {
        UserTableView { rows: self.rows@.map_values(|u: User| u@), next_id: self.next_id as int }
    }
}

impl UserTable {
    /// Every table is well formed, at all times.
    #[verifier::type_invariant]
    pub open spec fn inv(self) -> bool {
        self@.wf()
    }

    /// An empty table whose first id is 1.
    pub fn new() -> (table: UserTable)
        ensures
            table@.rows.len() == 0,
            table@.next_id == 1,
            table@.wf(),
    {
        UserTable { rows: Vec::new(), next_id: 1 }
    }

    fn position_by_email(&self, email: &String) -> (r: Option<usize>)
        ensures
            match r {
                Some(i) => self@.email_at(email@, i as int),
                None => forall|i: int| !self@.email_at(email@, i),
            },
    {
        let mut i: usize = 0;
        while i < self.rows.len()
            invariant
                i <= self.rows.len(),
                forall|j: int| 0 <= j < i ==> self@.rows[j].email != email@,
            decreases self.rows.len() - i,
        {
            if self.rows[i].email == *email {
                return Some(i);
            }
            i = i + 1;
        }
        None
    }

    fn position_by_id(&self, id: i32) -> (r: Option<usize>)
        ensures
            match r {
                Some(i) => self@.id_at(id, i as int),
                None => forall|i: int| !self@.id_at(id, i),
            },
    {
        let mut i: usize = 0;
        while i < self.rows.len()
            invariant
                i <= self.rows.len(),
                forall|j: int| 0 <= j < i ==> self@.rows[j].id != id,
            decreases self.rows.len() - i,
        {
            if self.rows[i].id == id {
                return Some(i);
            }
            i = i + 1;
        }
        None
    }

    /// The user registered under `email`, hash included.
    pub fn select_by_email(&self, email: &String) -> (found: Option<User>)
        ensures
            user_view(found) == self@.by_email(email@),
    {
        proof {
            use_type_invariant(self);
        }
        match self.position_by_email(email) {
            Some(i) => {
                proof {
                    self@.lemma_by_email(email@, i as int);
                }
                Some(self.rows[i].clone())
            },
            None => None,
        }
    }

    /// The user with the id `id`, hash included.
    pub fn select_by_id(&self, id: i32) -> (found: Option<User>)
        ensures
            user_view(found) == self@.by_id(id),
    {
        proof {
            use_type_invariant(self);
        }
        match self.position_by_id(id) {
            Some(i) => {
                proof {
                    self@.lemma_by_id(id, i as int);
                }
                Some(self.rows[i].clone())
            },
            None => None,
        }
    }

    /// Inserts a user and returns the id it got; `None`, and no change,
    /// where the email is taken or no id is left.
    pub fn insert(&mut self, email: String, password: String, name: String) -> (id: Option<i32>)
        ensures
            final(self)@.wf(),
            match id {
                Some(id) => old(self)@.accepts(email@) && id == old(self)@.next_id && final(self)@
                    == old(self)@.insert(email@, password@, name@),
                None => !old(self)@.accepts(email@) && final(self)@ == old(self)@,
            },
    {
        proof {
            use_type_invariant(&*self);
        }
        match self.position_by_email(&email) {
            Some(i) => {
                proof {
                    self@.lemma_by_email(email@, i as int);
                }
                return None;
            },
            None => {},
        }
        if self.next_id == i32::MAX {
            return None;
        }
        let id = self.next_id;
        let ghost before = self@;
        let mut rows: Vec<User> = Vec::new();
        std::mem::swap(&mut rows, &mut self.rows);
        rows.push(User { id, email, password: Some(password), name });
        proof {
            before.lemma_insert_wf(email@, password@, name@);
            assert(rows@.map_values(|u: User| u@) =~= before.insert(email@, password@, name@).rows);
        }
        *self = UserTable { rows, next_id: id + 1 };
        Some(id)
    }

    /// Replaces the hash of user `id`; `false`, and no change, where there is
    /// no such user.
    pub fn set_password(&mut self, id: i32, password: String) -> (found: bool)
        ensures
            final(self)@.wf(),
            found == (old(self)@.by_id(id) is Some),
            final(self)@ == old(self)@.set_password(id, password@),
    {
        proof {
            use_type_invariant(&*self);
        }
        match self.position_by_id(id) {
            None => false,
            Some(i) => {
                let ghost before = self@;
                proof {
                    before.lemma_by_id(id, i as int);
                }
                let mut rows: Vec<User> = Vec::new();
                std::mem::swap(&mut rows, &mut self.rows);
                let next_id = self.next_id;
                let row = User {
                    id: rows[i].id,
                    email: rows[i].email.clone(),
                    password: Some(password),
                    name: rows[i].name.clone(),
                };
                rows.set(i, row);
                proof {
                    before.lemma_set_password_wf(id, password@);
                    assert(rows@.map_values(|u: User| u@) =~= before.set_password(
                        id,
                        password@,
                    ).rows);
                }
                *self = UserTable { rows, next_id };
                true
            },
        }
    }
}

/// The value of an optional user.
pub open spec fn user_view(user: Option<User>) -> Option<UserView> {
    match user {
        Some(u) => Some(u@),
        None => None,
    }
}

} // verus!
