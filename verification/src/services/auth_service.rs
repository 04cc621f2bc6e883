//! Registration, login and password reset.
//!
//! Each handler comes twice. The function that takes tables runs a request
//! whole against the in-memory stores. The others are its single decisions,
//! each taking what a store answered, for a server that keeps its rows
//! elsewhere.

use vstd::prelude::*;
use crate::config::auth::{is_reset_code, is_token_of, issued_token, HASH_COST};
use crate::config::primitives::{hash_cost, password_matches, unix_now};
use crate::config::send_email::{outbox_view, reset_mail, send_email, Mail, MailView};
use crate::db::codes::{CodeTable, CodeTableView};
use crate::db::users::{user_view, UserTable, UserTableView};
use crate::models::api::{accepted, describe, rejected, with_data, ErrorKind, Payload, PayloadView,
    Response, ResponseView, StoreError};
use crate::models::auth::{Auth, Code, ForgotPassword, LoginUser, RegisterUser, ResetPassword};
use crate::models::user::{User, UserView};
use crate::repositories::auth_repository::{create_code, delete_code, find_code_by_code};
use crate::repositories::user_repository::{create_user, find_user_by_email, update_password};

verus! {

/// What a lookup answered, as values.
pub open spec fn lookup_view(found: Result<Option<User>, StoreError>) -> Result<
    Option<UserView>,
    Seq<char>,
> {
    match found {
        Ok(user) => Ok(user_view(user)),
        Err(e) => Err(e@),
    }
}

/// Whether `password` is the one behind the stored hash. A record without
/// a hash, or with one that cannot be read, matches no password.
pub open spec fn hash_accepts(password: Seq<char>, hash: Option<Seq<char>>) -> bool {
    match hash {
        Some(h) => password_matches(password, h) == Some(true),
        None => false,
    }
}

/// Whether `answer` is the answer to a login with `password` at the second
/// `now`, the lookup by email having answered `found`.
///
/// An unknown email gives 404 and a wrong password 401, never the other way
/// round. A right password gives 200 with the token issued to the user at
/// `now`, which expires 24 hours later; it gives 500 only where no token is
/// issued at `now`. A failed lookup gives 500.
pub open spec fn login_outcome(
    secret: Seq<char>,
    password: Seq<char>,
    found: Result<Option<UserView>, Seq<char>>,
    now: int,
    answer: ResponseView,
) -> bool {
    match found {
        Err(_) => answer == rejected(ErrorKind::Internal, "Server error"@),
        Ok(None) => answer == rejected(ErrorKind::NotFound, "User not found"@),
        Ok(Some(user)) => if hash_accepts(password, user.password) {
            match issued_token(secret, user.id, now) {
                Some(token) => is_token_of(secret, user.id, now, token) && answer == with_data(
                    200,
                    "Successful authorization"@,
                    PayloadView::Token(token),
                ),
                None => answer == rejected(ErrorKind::Internal, "Server error"@),
            }
        } else {
            answer == rejected(ErrorKind::Unauthorized, "Invalid email or password"@)
        },
    }
}

/// Answers a login at the second `now`, the lookup by email having answered
/// `found`.
pub fn login_found_at(
    auth: &Auth,
    body: &LoginUser,
    found: Result<Option<User>, StoreError>,
    now: i64,
) -> (answer: Response)
    ensures
        login_outcome(auth.secret_key@, body.password@, lookup_view(found), now as int, answer@),
{
    match found {
        Ok(Some(user)) => {
            let accepted = match &user.password {
                Some(hash) => auth.verify_password(body.password.as_str(), hash.as_str()),
                None => false,
            };
            if accepted {
                match auth.generate_jwt_at(user.id, now) {
                    Ok(token) => Response::with_payload(
                        200,
                        "Successful authorization",
                        Payload::Token(token),
                    ),
                    Err(_) => Response::rejected(ErrorKind::Internal, "Server error"),
                }
            } else {
                Response::rejected(ErrorKind::Unauthorized, "Invalid email or password")
            }
        },
        Ok(None) => Response::rejected(ErrorKind::NotFound, "User not found"),
        Err(_) => Response::rejected(ErrorKind::Internal, "Server error"),
    }
}

/// Answers a login by the system clock, the lookup by email having answered
/// `found`.
pub fn login_found(auth: &Auth, body: &LoginUser, found: Result<Option<User>, StoreError>) -> (answer:
    Response)
    ensures
        exists|now: i64| #[trigger]
            login_outcome(
                auth.secret_key@,
                body.password@,
                lookup_view(found),
                now as int,
                answer@,
            ),
{
    let now = unix_now();
    let answer = login_found_at(auth, body, found, now);
    assert(login_outcome(
        auth.secret_key@,
        body.password@,
        lookup_view(found),
        now as int,
        answer@,
    ));
    answer
}

/// Logs a user in: 200 with a fresh token where email and password are
/// those of a registered user.
pub fn login(users: &UserTable, auth: &Auth, body: LoginUser) -> (answer: Response)
    ensures
        exists|now: i64| #[trigger]
            login_outcome(
                auth.secret_key@,
                body.password@,
                Ok(users@.by_email(body.email@)),
                now as int,
                answer@,
            ),
{
    let found = find_user_by_email(users, body.email.clone());
    let answer = login_found(auth, &body, found);
    let ghost now = choose|now: i64| #[trigger]
        login_outcome(auth.secret_key@, body.password@, lookup_view(found), now as int, answer@);
    assert(login_outcome(
        auth.secret_key@,
        body.password@,
        Ok(users@.by_email(body.email@)),
        now as int,
        answer@,
    ));
    answer
}

/// Whether `answer` and the table `post` are a possible result of a
/// registration on the table `pre`.
///
/// An empty field gives 400 and a taken email gives 400, both without a
/// change. Otherwise the user is stored under the next id with a hash of
/// work factor `HASH_COST` that accepts `password`, and the answer is 201
/// with that id. 500 stands for a
/// hash that could not be made or a table without an id left; nothing
/// changes then.
pub open spec fn register_outcome(
    pre: UserTableView,
    post: UserTableView,
    email: Seq<char>,
    password: Seq<char>,
    name: Seq<char>,
    answer: ResponseView,
) -> bool {
    if password.len() == 0 || email.len() == 0 || name.len() == 0 {
        post == pre && answer == rejected(ErrorKind::Validation, "Password, email and name cannot be empty"@)
    } else {
        ||| post == pre && answer == rejected(ErrorKind::Internal, "Server error"@)
        ||| match pre.by_email(email) {
            Some(_) => post == pre && answer == rejected(ErrorKind::Conflict, "User is already registered"@),
            None => if pre.next_id < i32::MAX {
                &&& post.rows.len() > 0
                &&& post.rows.last().password matches Some(hash)
                &&& password_matches(password, hash) == Some(true)
                &&& hash_cost(hash) == Some(HASH_COST as nat)
                &&& post == pre.insert(email, hash, name)
                &&& answer == with_data(
                    201,
                    "User registered successfully"@,
                    PayloadView::UserId(pre.next_id as i32),
                )
            } else {
                post == pre && answer == rejected(
                    ErrorKind::Internal,
                    "Server error: "@ + "Error creating user: no id is left"@,
                )
            },
        }
    }
}

/// The first decision of a registration: the record to store, its password
/// replaced by a hash, or the answer that ends the request (400 for an
/// empty field, 500 where no hash could be made).
pub fn register_begin(auth: &Auth, body: RegisterUser) -> (r: Result<RegisterUser, Response>)
    ensures
        match r {
            Ok(pending) => body.password@.len() > 0 && body.email@.len() > 0 && body.name@.len()
                > 0 && pending.email@ == body.email@ && pending.name@ == body.name@
                && password_matches(body.password@, pending.password@) == Some(true)
                && hash_cost(pending.password@) == Some(HASH_COST as nat),
            Err(answer) => if body.password@.len() == 0 || body.email@.len() == 0
                || body.name@.len() == 0 {
                answer@ == rejected(ErrorKind::Validation, "Password, email and name cannot be empty"@)
            } else {
                answer@ == rejected(ErrorKind::Internal, "Server error"@)
            },
        },
{
    if body.password.as_str().is_empty() || body.email.as_str().is_empty()
        || body.name.as_str().is_empty() {
        return Err(Response::rejected(ErrorKind::Validation, "Password, email and name cannot be empty"));
    }
    match auth.hash_password(body.password.as_str()) {
        Ok(hash) => Ok(RegisterUser { email: body.email, password: hash, name: body.name }),
        Err(_) => Err(Response::rejected(ErrorKind::Internal, "Server error")),
    }
}

/// The second decision of a registration, on what the lookup by email
/// answered: 400 where the email is taken, else the record to store.
pub fn register_checked(pending: RegisterUser, found: Result<Option<User>, StoreError>) -> (r:
    Result<RegisterUser, Response>)
    ensures
        match found {
            Ok(Some(_)) => r matches Err(answer) && answer@ == rejected(ErrorKind::Conflict,
                "User is already registered"@,
            ),
            _ => r == Ok::<RegisterUser, Response>(pending),
        },
{
    match found {
        Ok(Some(_)) => Err(Response::rejected(ErrorKind::Conflict, "User is already registered")),
        _ => Ok(pending),
    }
}

/// The last decision of a registration, on what the insert answered.
pub fn register_created(created: Result<User, StoreError>) -> (answer: Response)
    ensures
        answer@ == match created {
            Ok(user) => with_data(
                201,
                "User registered successfully"@,
                PayloadView::UserId(user.id),
            ),
            Err(e) => rejected(ErrorKind::Internal, "Server error: "@ + e@),
        },
{
    match created {
        Ok(user) => Response::with_payload(
            201,
            "User registered successfully",
            Payload::UserId(user.id),
        ),
        Err(e) => Response::rejected_with(ErrorKind::Internal, describe("Server error: ", e.message.as_str())),
    }
}

/// Registers a user.
pub fn register(users: &mut UserTable, auth: &Auth, body: RegisterUser) -> (answer: Response)
    ensures
        final(users)@.wf(),
        register_outcome(
            old(users)@,
            final(users)@,
            body.email@,
            body.password@,
            body.name@,
            answer@,
        ),
{
    proof {
        use_type_invariant(&*users);
    }
    let pending = match register_begin(auth, body) {
        Ok(pending) => pending,
        Err(answer) => return answer,
    };
    let found = find_user_by_email(users, pending.email.clone());
    let pending = match register_checked(pending, found) {
        Ok(pending) => pending,
        Err(answer) => return answer,
    };
    let created = create_user(users, pending);
    register_created(created)
}

/// Whether `answer`, the code table `post` and the outbox `sent` are a
/// possible result of a forgot-password request for `email`.
///
/// For a registered user a fresh code becomes the user's only active code
/// and is mailed to `email`; the answer is 200 even where the code table
/// took no row. An empty email gives 400 and an unknown one 404, both
/// without a change.
pub open spec fn forgot_outcome(
    users: UserTableView,
    pre: CodeTableView,
    post: CodeTableView,
    outbox: Seq<MailView>,
    sent: Seq<MailView>,
    email: Seq<char>,
    answer: ResponseView,
) -> bool {
    if email.len() == 0 {
        post == pre && sent == outbox && answer == rejected(ErrorKind::Validation, "Email cannot be empty"@)
    } else {
        match users.by_email(email) {
            None => post == pre && sent == outbox && answer == rejected(ErrorKind::NotFound, "User not found"@),
            Some(user) => answer == accepted(200, "Email sent successfully"@) && exists|
                code: Seq<char>,
            |
                {
                    &&& #[trigger] is_reset_code(code)
                    &&& post == if pre.accepts(user.id) {
                        pre.upsert(code, user.id)
                    } else {
                        pre
                    }
                    &&& sent == outbox.push(reset_mail(email, code))
                },
        }
    }
}

/// The first decision of a forgot-password request: 400 for an empty email.
pub fn forgot_password_check(body: &ForgotPassword) -> (r: Option<Response>)
    ensures
        match r {
            Some(answer) => body.email@.len() == 0 && answer@ == rejected(ErrorKind::Validation,
                "Email cannot be empty"@,
            ),
            None => body.email@.len() > 0,
        },
{
    if body.email.as_str().is_empty() {
        Some(Response::rejected(ErrorKind::Validation, "Email cannot be empty"))
    } else {
        None
    }
}

/// The second decision of a forgot-password request, on what the lookup by
/// email answered: the user's id and a fresh code to store and to mail, or
/// the answer that ends the request.
pub fn forgot_password_found(found: Result<Option<User>, StoreError>) -> (r: Result<
    (i32, String),
    Response,
>)
    ensures
        match found {
            Ok(Some(user)) => r matches Ok(issue) && issue.0 == user.id && is_reset_code(
                issue.1@,
            ),
            Ok(None) => r matches Err(answer) && answer@ == rejected(ErrorKind::NotFound, "User not found"@),
            Err(e) => r matches Err(answer) && answer@ == rejected(ErrorKind::Internal, "Server error: "@ + e@),
        },
{
    match found {
        Ok(Some(user)) => Ok((user.id, Auth::generate_code())),
        Ok(None) => Err(Response::rejected(ErrorKind::NotFound, "User not found")),
        Err(e) => Err(
            Response::rejected_with(ErrorKind::Internal, describe("Server error: ", e.message.as_str())),
        ),
    }
}

/// The answer of a forgot-password request once the code was handed to the
/// table and to the notifier, whatever either of them made of it.
pub fn forgot_password_sent() -> (answer: Response)
    ensures
        answer@ == accepted(200, "Email sent successfully"@),
{
    Response::accepted(200, "Email sent successfully")
}

/// Issues a reset code for the user registered under `body.email` and mails
/// it.
pub fn forgot_password(
    users: &UserTable,
    codes: &mut CodeTable,
    outbox: &mut Vec<Mail>,
    body: ForgotPassword,
) -> (answer: Response)
    ensures
        final(codes)@.wf(),
        forgot_outcome(
            users@,
            old(codes)@,
            final(codes)@,
            outbox_view(old(outbox)@),
            outbox_view(final(outbox)@),
            body.email@,
            answer@,
        ),
{
    proof {
        use_type_invariant(&*codes);
    }
    match forgot_password_check(&body) {
        Some(answer) => return answer,
        None => {},
    }
    let found = find_user_by_email(users, body.email.clone());
    let (user_id, code) = match forgot_password_found(found) {
        Ok(issue) => issue,
        Err(answer) => return answer,
    };
    let _ = create_code(codes, &code, user_id);
    let mail = Mail::reset_code(&body.email, &code);
    send_email(outbox, mail.email, mail.subject, mail.message);
    assert(is_reset_code(code@));
    forgot_password_sent()
}

/// Whether `answer` and the tables `users_post` and `codes_post` are a
/// possible result of a reset-password request.
///
/// The hash changes only where `code` is the active code of the user
/// registered under `email`: the new hash, of work factor `HASH_COST`,
/// accepts `new_password`, the code is used up, and the answer is 200. An unknown email and a code that is
/// not the user's active code give 404, an empty field 400, a hash that
/// could not be made 500; nothing changes then.
pub open spec fn reset_outcome(
    users_pre: UserTableView,
    users_post: UserTableView,
    codes_pre: CodeTableView,
    codes_post: CodeTableView,
    email: Seq<char>,
    code: Seq<char>,
    new_password: Seq<char>,
    answer: ResponseView,
) -> bool {
    let unchanged = users_post == users_pre && codes_post == codes_pre;
    if email.len() == 0 || code.len() == 0 || new_password.len() == 0 {
        unchanged && answer == rejected(ErrorKind::Validation, "Email, code and password cannot be empty"@)
    } else {
        match users_pre.by_email(email) {
            None => unchanged && answer == rejected(ErrorKind::NotFound, "User not found"@),
            Some(user) => match codes_pre.find(code, user.id) {
                None => unchanged && answer == rejected(ErrorKind::NotFound, "Code not found"@),
                Some(_) => {
                    ||| unchanged && answer == rejected(ErrorKind::Internal, "Server error"@)
                    ||| {
                        &&& users_post.by_id(user.id) matches Some(row)
                        &&& row.password matches Some(hash)
                        &&& password_matches(new_password, hash) == Some(true)
                        &&& hash_cost(hash) == Some(HASH_COST as nat)
                        &&& users_post == users_pre.set_password(user.id, hash)
                        &&& codes_post == codes_pre.delete(code, user.id)
                        &&& answer == accepted(200, "Password reset successfully"@)
                    }
                },
            },
        }
    }
}

/// The first decision of a reset-password request: 400 for an empty field.
pub fn reset_password_check(body: &ResetPassword) -> (r: Option<Response>)
    ensures
        match r {
            Some(answer) => (body.email@.len() == 0 || body.code@.len() == 0
                || body.new_password@.len() == 0) && answer@ == rejected(ErrorKind::Validation,
                "Email, code and password cannot be empty"@,
            ),
            None => body.email@.len() > 0 && body.code@.len() > 0 && body.new_password@.len() > 0,
        },
{
    if body.email.as_str().is_empty() || body.code.as_str().is_empty()
        || body.new_password.as_str().is_empty() {
        Some(Response::rejected(ErrorKind::Validation, "Email, code and password cannot be empty"))
    } else {
        None
    }
}

/// The second decision of a reset-password request, on what the lookup by
/// email answered: the user, 404 where there is none, 500 where the lookup
/// failed.
pub fn reset_password_user(found: Result<Option<User>, StoreError>) -> (r: Result<User, Response>)
    ensures
        match found {
            Ok(Some(user)) => r matches Ok(u) && u@ == user@,
            Ok(None) => r matches Err(answer) && answer@ == rejected(
                ErrorKind::NotFound,
                "User not found"@,
            ),
            Err(e) => r matches Err(answer) && answer@ == rejected(
                ErrorKind::Internal,
                "Server error: "@ + e@,
            ),
        },
{
    match found {
        Ok(Some(user)) => Ok(user),
        Ok(None) => Err(Response::rejected(ErrorKind::NotFound, "User not found")),
        Err(e) => Err(
            Response::rejected_with(
                ErrorKind::Internal,
                describe("Server error: ", e.message.as_str()),
            ),
        ),
    }
}

/// The third decision of a reset-password request, on what the lookup of
/// the code answered: the hash of the new password where the code is the
/// user's active code, or the answer that ends the request.
pub fn reset_password_code(
    auth: &Auth,
    body: &ResetPassword,
    found: Result<Option<Code>, StoreError>,
) -> (r: Result<String, Response>)
    ensures
        match found {
            Ok(Some(_)) => match r {
                Ok(hash) => password_matches(body.new_password@, hash@) == Some(true)
                    && hash_cost(hash@) == Some(HASH_COST as nat),
                Err(answer) => answer@ == rejected(ErrorKind::Internal, "Server error"@),
            },
            Ok(None) => r matches Err(answer) && answer@ == rejected(ErrorKind::NotFound, "Code not found"@),
            Err(e) => r matches Err(answer) && answer@ == rejected(ErrorKind::Internal, "Server error: "@ + e@),
        },
{
    match found {
        Ok(Some(_)) => match auth.hash_password(body.new_password.as_str()) {
            Ok(hash) => Ok(hash),
            Err(_) => Err(Response::rejected(ErrorKind::Internal, "Server error")),
        },
        Ok(None) => Err(Response::rejected(ErrorKind::NotFound, "Code not found")),
        Err(e) => Err(
            Response::rejected_with(ErrorKind::Internal, describe("Server error: ", e.message.as_str())),
        ),
    }
}

/// The last decision of a reset-password request, on what the update
/// answered.
pub fn reset_password_done(updated: Result<User, StoreError>) -> (answer: Response)
    ensures
        answer@ == match updated {
            Ok(_) => accepted(200, "Password reset successfully"@),
            Err(e) => rejected(ErrorKind::Internal, "Server error: "@ + e@),
        },
{
    match updated {
        Ok(_) => Response::accepted(200, "Password reset successfully"),
        Err(e) => Response::rejected_with(ErrorKind::Internal, describe("Server error: ", e.message.as_str())),
    }
}

/// A user found by email is found by its id too.
pub proof fn lemma_found_by_id(users: UserTableView, email: Seq<char>)
    requires
        users.wf(),
        users.by_email(email) is Some,
    ensures
        users.by_id(users.by_email(email)->0.id) == users.by_email(email),
{
    let i = choose|i: int| users.email_at(email, i);
    users.lemma_by_id(users.rows[i].id, i);
}

/// Replaces a user's password, given the user's active reset code.
pub fn reset_password(
    users: &mut UserTable,
    codes: &mut CodeTable,
    auth: &Auth,
    body: ResetPassword,
) -> (answer: Response)
    ensures
        final(users)@.wf(),
        final(codes)@.wf(),
        reset_outcome(
            old(users)@,
            final(users)@,
            old(codes)@,
            final(codes)@,
            body.email@,
            body.code@,
            body.new_password@,
            answer@,
        ),
{
    proof {
        use_type_invariant(&*users);
        use_type_invariant(&*codes);
    }
    match reset_password_check(&body) {
        Some(answer) => return answer,
        None => {},
    }
    let user = match reset_password_user(find_user_by_email(users, body.email.clone())) {
        Ok(user) => user,
        Err(answer) => return answer,
    };
    let found = find_code_by_code(codes, body.code.clone(), user.id);
    let hash = match reset_password_code(auth, &body, found) {
        Ok(hash) => hash,
        Err(answer) => return answer,
    };
    proof {
        lemma_found_by_id(users@, body.email@);
    }
    let updated = update_password(users, user.id, hash);
    let _ = delete_code(codes, body.code, user.id);
    reset_password_done(updated)
}

} // verus!
