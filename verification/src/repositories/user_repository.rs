//! The user directory: the statements that read and write the user table.

use vstd::prelude::*;
use crate::db::users::{user_view, UserTable};
use crate::models::api::StoreError;
use crate::models::auth::RegisterUser;
use crate::models::user::{User, UserView};

verus! {

/// The user registered under `email`, with the stored hash.
pub fn find_user_by_email(users: &UserTable, email: String) -> (r: Result<
    Option<User>,
    StoreError,
>)
    ensures
        r matches Ok(found) && user_view(found) == users@.by_email(email@),
{
    Ok(users.select_by_email(&email))
}

/// The user with the id `id`, with the stored hash.
pub fn find_user_by_id(users: &UserTable, id: i32) -> (r: Result<Option<User>, StoreError>)
    ensures
        r matches Ok(found) && user_view(found) == users@.by_id(id),
{
    Ok(users.select_by_id(id))
}

/// Stores a new user, `user.password` being the hash, and returns the record
/// without it. Fails, and changes nothing, where the email is taken or the
/// table has no id left.
pub fn create_user(users: &mut UserTable, user: RegisterUser) -> (r: Result<User, StoreError>)
    ensures
        final(users)@.wf(),
        match r {
            Ok(created) => old(users)@.accepts(user.email@) && final(users)@ == old(users)@.insert(
                user.email@,
                user.password@,
                user.name@,
            ) && created@ == (UserView {
                id: old(users)@.next_id as i32,
                email: user.email@,
                password: None,
                name: user.name@,
            }),
            Err(e) => !old(users)@.accepts(user.email@) && final(users)@ == old(users)@ && e@
                == if old(users)@.by_email(user.email@) is Some {
                "Error creating user: the email is taken"@
            } else {
                "Error creating user: no id is left"@
            },
        },
{
    proof {
        use_type_invariant(&*users);
    }
    if users.select_by_email(&user.email).is_some() {
        return Err(
            StoreError { message: String::from_str("Error creating user: the email is taken") },
        );
    }
    let email = user.email.clone();
    let name = user.name.clone();
    match users.insert(user.email, user.password, user.name) {
        Some(id) => Ok(User { id, email, password: None, name }),
        None => Err(StoreError { message: String::from_str("Error creating user: no id is left") }),
    }
}

/// Replaces the hash of user `user_id` and returns the updated record.
/// Fails, and changes nothing, where there is no such user.
pub fn update_password(users: &mut UserTable, user_id: i32, password: String) -> (r: Result<
    User,
    StoreError,
>)
    ensures
        final(users)@.wf(),
        final(users)@ == old(users)@.set_password(user_id, password@),
        match r {
            Ok(updated) => old(users)@.by_id(user_id) is Some
                && Some(updated@) == final(users)@.by_id(user_id)
                && updated@.password == Some(password@),
            Err(e) => old(users)@.by_id(user_id) is None && e@
                == "Error updating password: no such user"@,
        },
{
    proof {
        use_type_invariant(&*users);
    }
    if users.set_password(user_id, password) {
        match users.select_by_id(user_id) {
            Some(updated) => {
                proof {
                    lemma_updated_row(old(users)@, user_id, password@);
                }
                Ok(updated)
            },
            None => {
                proof {
                    lemma_updated_row(old(users)@, user_id, password@);
                }
                Err(StoreError { message: String::from_str("Error updating password: no such user") })
            },
        }
    } else {
        Err(StoreError { message: String::from_str("Error updating password: no such user") })
    }
}

/// After the hash of an existing user was replaced, the user's row holds
/// the new hash and is otherwise what it was.
pub proof fn lemma_updated_row(
    table: crate::db::users::UserTableView,
    user_id: i32,
    password: Seq<char>,
)
    requires
        table.wf(),
        table.by_id(user_id) is Some,
    ensures
        table.set_password(user_id, password).by_id(user_id) == Some(
            UserView { password: Some(password), ..table.by_id(user_id)->0 },
        ),
{
    let i = choose|i: int| table.id_at(user_id, i);
    let after = table.set_password(user_id, password);
    table.lemma_set_password_wf(user_id, password);
    assert(after.id_at(user_id, i));
    after.lemma_by_id(user_id, i);
}

} // verus!
