use vstd::prelude::*;

verus! {

/// A registered account. `password` holds the stored hash; it is `None`
/// wherever the record has been prepared for a client.
#[derive(Debug, PartialEq, Eq)]
pub struct User {
    pub id: i32,
    pub email: String,
    pub password: Option<String>,
    pub name: String,
}

/// Mathematical value of a [`User`].
pub struct UserView {
    pub id: i32,
    pub email: Seq<char>,
    pub password: Option<Seq<char>>,
    pub name: Seq<char>,
}

/// The characters of an optional string.
pub open spec fn text_of(s: Option<String>) -> Option<Seq<char>> {
    match s {
        Some(t) => Some(t@),
        None => None,
    }
}

/// Copies an optional string.
pub fn copy_text(s: &Option<String>) -> (r: Option<String>)
    ensures
        text_of(r) == text_of(*s),
{
    match s {
        Some(t) => Some(t.clone()),
        None => None,
    }
}

impl View for User {
    type V = UserView;

    open spec fn view(&self) -> UserView {
        UserView {
            id: self.id,
            email: self.email@,
            password: text_of(self.password),
            name: self.name@,
        }
    }
}

impl UserView {
    /// The record as a client may see it: the hash removed.
    pub open spec fn public(self) -> UserView {
        UserView { password: None, ..self }
    }
}

impl Clone for User {
    fn clone(&self) -> (r: User)
        ensures
            r@ == self@,
    {
        User {
            id: self.id,
            email: self.email.clone(),
            password: copy_text(&self.password),
            name: self.name.clone(),
        }
    }
}

impl User {
    /// Drops the stored hash, leaving what may be sent to a client.
    pub fn without_password(self) -> (r: User)
        ensures
            r@ == self@.public(),
    {
        User { id: self.id, email: self.email, password: None, name: self.name }
    }
}

} // verus!
