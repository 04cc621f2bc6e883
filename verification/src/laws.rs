//! What holds of the library as a whole, proved from the contracts of its
//! functions.

use vstd::prelude::*;
use crate::config::auth::{
    decimal_text, digit_char, is_reset_code, is_token_of, issued_token, token_claims,
    verify_outcome, CODE_HIGH, CODE_LOW, HASH_COST, TOKEN_LIFETIME,
};
use crate::config::files_actions::{
    blobs_after_delete, blobs_after_upload, delete_reply, files_after_delete, files_after_upload,
    listing, lists_own_files, record_of, selected_rows, upload_reply,
};
use crate::db::codes::CodeTableView;
use crate::db::files::{wanted, FileTableView};
use crate::db::users::UserTableView;
use crate::models::api::{rejected, ErrorKind, PayloadView, ResponseView};
use crate::models::auth::{AuthVerifyResponse, CredentialError};
use crate::models::files::{
    done, failed, DeleteError, FileAction, FileDataView, FileError, UploadPart,
};
use crate::models::user::text_of;
use crate::services::auth_service::{hash_accepts, login_outcome, register_outcome, reset_outcome};
use crate::services::user_service::{caller_of, user_outcome};

verus! {

/// Every hash is made at work factor 10, which the hashing backend accepts,
/// and every token is issued for 24 hours.
pub proof fn law_work_factor_and_lifetime()
    ensures
        HASH_COST == 10,
        4 <= HASH_COST <= 31,
        TOKEN_LIFETIME == 24 * 60 * 60,
{
}

/// A reset code is a text of four decimal digits, the first of them not 0.
pub proof fn law_reset_code_has_four_digits(code: Seq<char>)
    requires
        is_reset_code(code),
    ensures
        code.len() == 4,
        forall|i: int| 0 <= i < 4 ==> '0' <= #[trigger] code[i] <= '9',
        code[0] != '0',
{
    let n = choose|n: nat| CODE_LOW <= n < CODE_HIGH && code == #[trigger] decimal_text(n);
    reveal_with_fuel(decimal_text, 4);
    assert(code =~= seq![
        digit_char(n / 1000),
        digit_char(n / 100 % 10),
        digit_char(n / 10 % 10),
        digit_char(n % 10),
    ]);
}

/// A token verifies as the user it was issued to, at every second up to
/// its expiry 24 hours after it was issued.
pub proof fn law_issued_token_verifies(
    secret: Seq<char>,
    user_id: i32,
    issued: int,
    token: Seq<char>,
    now: int,
)
    requires
        is_token_of(secret, user_id, issued, token),
        now <= issued + TOKEN_LIFETIME,
    ensures
        verify_outcome(token, secret, now) == Ok::<i32, CredentialError>(user_id),
{
}

/// A token whose expiry lies before `now` does not verify at `now`.
pub proof fn law_expired_token_fails(token: Seq<char>, secret: Seq<char>, now: int)
    requires
        token_claims(token, secret) matches Some(claims) && claims.exp < now,
    ensures
        verify_outcome(token, secret, now) == Err::<i32, CredentialError>(
            CredentialError::ExpiredToken,
        ),
{
}

/// A token that was issued does not verify once more than 24 hours have
/// passed.
pub proof fn law_issued_token_expires(
    secret: Seq<char>,
    user_id: i32,
    issued: int,
    token: Seq<char>,
    now: int,
)
    requires
        is_token_of(secret, user_id, issued, token),
        now > issued + TOKEN_LIFETIME,
    ensures
        verify_outcome(token, secret, now) == Err::<i32, CredentialError>(
            CredentialError::ExpiredToken,
        ),
{
}

/// After a registration that was answered with 201, a login with the same
/// email and password, at a second at which a token is issued to the user,
/// is answered with 200 and a token that verifies as the registered user.
pub proof fn law_register_then_login(
    pre: UserTableView,
    post: UserTableView,
    email: Seq<char>,
    password: Seq<char>,
    name: Seq<char>,
    registered: ResponseView,
    secret: Seq<char>,
    now: int,
    answer: ResponseView,
)
    requires
        pre.wf(),
        email.len() > 0,
        password.len() > 0,
        name.len() > 0,
        register_outcome(pre, post, email, password, name, registered),
        registered.code == 201,
        issued_token(secret, pre.next_id as i32, now) is Some,
        login_outcome(secret, password, Ok(post.by_email(email)), now, answer),
    ensures
        registered.data == Some(PayloadView::UserId(pre.next_id as i32)),
        answer.code == 200,
        answer.error is None,
        answer.data == Some(
            PayloadView::Token(issued_token(secret, pre.next_id as i32, now)->0),
        ),
        verify_outcome(issued_token(secret, pre.next_id as i32, now)->0, secret, now) == Ok::<
            i32,
            CredentialError,
        >(pre.next_id as i32),
{
    let hash = post.rows.last().password->0;
    pre.lemma_insert_wf(email, hash, name);
    let i = pre.rows.len() as int;
    assert(post.email_at(email, i));
    post.lemma_by_email(email, i);
}

/// A login with the right password is answered with 200 exactly where a
/// token is issued to the user at that second, and with 500 where none is.
pub proof fn law_right_password_logs_in(
    secret: Seq<char>,
    password: Seq<char>,
    user: crate::models::user::UserView,
    now: int,
    answer: ResponseView,
)
    requires
        hash_accepts(password, user.password),
        login_outcome(secret, password, Ok(Some(user)), now, answer),
    ensures
        answer.code == 200 <==> issued_token(secret, user.id, now) is Some,
        answer.code == 200 || answer == rejected(ErrorKind::Internal, "Server error"@),
        answer.code == 200 ==> (answer.data matches Some(PayloadView::Token(token))
            && verify_outcome(token, secret, now) == Ok::<i32, CredentialError>(user.id)),
{
}

/// A caller that asks for the record of another user is answered with 403
/// and no payload, whether or not there is such a user.
pub proof fn law_other_record_is_forbidden(
    verdict: AuthVerifyResponse,
    id: i32,
    users: UserTableView,
)
    requires
        caller_of(verdict) matches Some(caller) && caller != id,
    ensures
        user_outcome(verdict, id, users) == rejected(ErrorKind::Forbidden, "Forbidden"@),
        user_outcome(verdict, id, users).code == 403,
        user_outcome(verdict, id, users).data is None,
{
}

/// A login with the email of a registered user and a password that the
/// stored hash does not accept is answered with 401, never with 404.
pub proof fn law_wrong_password_is_unauthorized(
    users: UserTableView,
    secret: Seq<char>,
    email: Seq<char>,
    password: Seq<char>,
    now: int,
    answer: ResponseView,
)
    requires
        users.by_email(email) matches Some(user) && !hash_accepts(password, user.password),
        login_outcome(secret, password, Ok(users.by_email(email)), now, answer),
    ensures
        answer == rejected(ErrorKind::Unauthorized, "Invalid email or password"@),
        answer.code == 401,
        answer.error != Some(ErrorKind::NotFound),
{
}

/// In a well-formed table a user with a row has exactly one active code.
pub proof fn lemma_one_active_code(table: CodeTableView, user_id: i32, i: int, n: int)
    requires
        table.wf(),
        table.user_at(user_id, i),
        0 <= n <= table.rows.len(),
    ensures
        table.count_for(user_id, n) == if i < n {
            1nat
        } else {
            0nat
        },
    decreases n,
{
    if n > 0 {
        lemma_one_active_code(table, user_id, i, n - 1);
        if n - 1 != i && table.rows[n - 1].user_id == user_id {
            if n - 1 < i {
                assert(table.rows[n - 1].user_id != table.rows[i].user_id);
            } else {
                assert(table.rows[i].user_id != table.rows[n - 1].user_id);
            }
        }
    }
}

/// Storing two codes for one user, one after the other, leaves the user
/// with exactly one active code: the second.
pub proof fn law_second_code_replaces_first(
    table: CodeTableView,
    user_id: i32,
    first: Seq<char>,
    second: Seq<char>,
)
    requires
        table.wf(),
        table.accepts(user_id),
    ensures
        table.upsert(first, user_id).accepts(user_id),
        table.upsert(first, user_id).upsert(second, user_id).wf(),
        table.upsert(first, user_id).upsert(second, user_id).active_codes(user_id) == 1,
        table.upsert(first, user_id).upsert(second, user_id).by_user(user_id) matches Some(row)
            && row.code == second,
        first != second ==> (table.upsert(first, user_id).upsert(second, user_id).find(
            first,
            user_id,
        ) is None),
{
    let once = table.upsert(first, user_id);
    table.lemma_upsert_wf(first, user_id);
    let i = if exists|i: int| table.user_at(user_id, i) {
        choose|i: int| table.user_at(user_id, i)
    } else {
        table.rows.len() as int
    };
    assert(once.user_at(user_id, i));
    once.lemma_by_user(user_id, i);
    let twice = once.upsert(second, user_id);
    once.lemma_upsert_wf(second, user_id);
    assert(twice.user_at(user_id, i));
    twice.lemma_by_user(user_id, i);
    lemma_one_active_code(twice, user_id, i, twice.rows.len() as int);
}

/// A reset with a code that is not the user's active code is answered with
/// 404 and changes neither the user's hash nor anything else.
pub proof fn law_wrong_code_changes_nothing(
    users_pre: UserTableView,
    users_post: UserTableView,
    codes_pre: CodeTableView,
    codes_post: CodeTableView,
    email: Seq<char>,
    code: Seq<char>,
    new_password: Seq<char>,
    answer: ResponseView,
)
    requires
        email.len() > 0,
        code.len() > 0,
        new_password.len() > 0,
        users_pre.by_email(email) matches Some(user) && codes_pre.find(code, user.id) is None,
        reset_outcome(
            users_pre,
            users_post,
            codes_pre,
            codes_post,
            email,
            code,
            new_password,
            answer,
        ),
    ensures
        answer == rejected(ErrorKind::NotFound, "Code not found"@),
        users_post == users_pre,
        codes_post == codes_pre,
        users_post.by_email(email)->0.password == users_pre.by_email(email)->0.password,
{
}

/// After an upload that the table took, a listing of the owner's files
/// succeeds and holds the new row: under the id the upload was answered
/// with, with the declared file name and the number of bytes.
pub proof fn law_upload_then_list(
    files: FileTableView,
    part: UploadPart,
    owner: i32,
    ids: Seq<i32>,
    scope: Option<i32>,
)
    requires
        files.wf(),
        files.accepts(),
        part.bytes@.len() <= i32::MAX,
        ids == seq![-1i32] || ids.len() == 0,
    ensures
        upload_reply(files, Some(part)) == done(PayloadView::FileId(files.next_id as i32)),
        listing(selected_rows(files_after_upload(files, Some(part), owner), scope, owner, ids))
            == done(
            PayloadView::Files(files_after_upload(files, Some(part), owner).owned_by(owner)),
        ),
        files_after_upload(files, Some(part), owner).owned_by(owner).contains(
            record_of(part).row(files.next_id as i32, owner),
        ),
        record_of(part).file_size == part.bytes@.len(),
        text_of(part.file_name) matches Some(name) ==> record_of(part).file_name == name,
{
    let after = files_after_upload(files, Some(part), owner);
    let row = record_of(part).row(files.next_id as i32, owner);
    let own = |f: FileDataView| wanted(f, None, Some(owner));
    reveal(Seq::filter);
    assert(after.rows.drop_last() =~= files.rows);
    assert(after.rows.last() == row);
    assert(after.rows.filter(own) == files.rows.filter(own).push(row));
    let listed = after.owned_by(owner);
    assert(listed[listed.len() - 1] == row);
    if ids.len() > 0 {
        assert(ids[0] == -1);
    }
}

/// A delete of an id that no row has is answered with `NotFound` and leaves
/// the table and the byte store as they were.
pub proof fn law_delete_of_missing_file(
    files: FileTableView,
    blobs: Map<Seq<char>, Seq<u8>>,
    file_id: i32,
    scope: Option<i32>,
)
    requires
        files.by_id(file_id) is None,
    ensures
        delete_reply(files, blobs, file_id, scope) == failed(
            FileError::Delete(DeleteError::NotFound),
            "File not found"@,
        ),
        blobs_after_delete(files, blobs, file_id, scope) == blobs,
        files_after_delete(files, file_id, scope) == files,
{
}

/// An owner-filtered engine serves a caller no file of another user: a
/// listing by ids holds only rows of the caller, and a delete of another
/// user's file is answered with `NotFound` and changes nothing.
pub proof fn law_owner_filter_confines(
    action: FileAction,
    files: FileTableView,
    blobs: Map<Seq<char>, Seq<u8>>,
    caller: i32,
    ids: Seq<i32>,
    file_id: i32,
)
    requires
        action.owner_filtered,
    ensures
        forall|i: int|
            0 <= i < selected_rows(files, action.scope_of(caller), caller, ids).len() ==> (
            #[trigger] selected_rows(files, action.scope_of(caller), caller, ids)[i]).user_id
                == caller,
        files.by_id(file_id) matches Some(row) && row.user_id != caller ==> delete_reply(
            files,
            blobs,
            file_id,
            action.scope_of(caller),
        ) == failed(FileError::Delete(DeleteError::NotFound), "File not found"@)
            && files_after_delete(files, file_id, action.scope_of(caller)) == files
            && blobs_after_delete(files, blobs, file_id, action.scope_of(caller)) == blobs,
{
    let listed = selected_rows(files, action.scope_of(caller), caller, ids);
    assert forall|i: int| 0 <= i < listed.len() implies (#[trigger] listed[i]).user_id
        == caller by {
        if lists_own_files(ids) {
            files.rows.lemma_filter_pred(|f: FileDataView| wanted(f, None, Some(caller)), i);
        } else {
            files.rows.lemma_filter_pred(
                |f: FileDataView| wanted(f, Some(ids), Some(caller)),
                i,
            );
        }
    }
}

/// No user has more than one active code, and a user has one exactly where
/// the table holds a row for that user.
pub proof fn law_at_most_one_active_code(table: CodeTableView, user_id: i32)
    requires
        table.wf(),
    ensures
        table.active_codes(user_id) == if table.by_user(user_id) is Some {
            1nat
        } else {
            0nat
        },
{
    if exists|i: int| table.user_at(user_id, i) {
        let i = choose|i: int| table.user_at(user_id, i);
        lemma_one_active_code(table, user_id, i, table.rows.len() as int);
    } else {
        lemma_no_active_code(table, user_id, table.rows.len() as int);
    }
}

/// A user without a row has no active code.
pub proof fn lemma_no_active_code(table: CodeTableView, user_id: i32, n: int)
    requires
        forall|i: int| !table.user_at(user_id, i),
        0 <= n <= table.rows.len(),
    ensures
        table.count_for(user_id, n) == 0,
    decreases n,
{
    if n > 0 {
        lemma_no_active_code(table, user_id, n - 1);
        assert(!table.user_at(user_id, n - 1));
    }
}

/// After an upload that the table took, the bytes of the part are kept
/// under the path of the new row.
pub proof fn law_uploaded_bytes_are_stored(
    files: FileTableView,
    blobs: Map<Seq<char>, Seq<u8>>,
    part: UploadPart,
    owner: i32,
)
    requires
        files.wf(),
        files.accepts(),
    ensures
        files_after_upload(files, Some(part), owner).wf(),
        files_after_upload(files, Some(part), owner).by_id(files.next_id as i32) == Some(
            record_of(part).row(files.next_id as i32, owner),
        ),
        blobs_after_upload(blobs, Some(part)).contains_key(record_of(part).file_path),
        blobs_after_upload(blobs, Some(part))[record_of(part).file_path] == part.bytes@,
{
    let after = files_after_upload(files, Some(part), owner);
    files.lemma_insert_wf(record_of(part), owner);
    let i = files.rows.len() as int;
    assert(after.id_at(files.next_id as i32, i));
    after.lemma_by_id(files.next_id as i32, i);
}

/// After a delete that found its file, neither the row nor the bytes at the
/// row's path are left.
pub proof fn law_deleted_file_is_gone(
    files: FileTableView,
    blobs: Map<Seq<char>, Seq<u8>>,
    file_id: i32,
    scope: Option<i32>,
)
    requires
        files.wf(),
        files.by_id_of(file_id, scope) is Some,
    ensures
        files_after_delete(files, file_id, scope).wf(),
        files_after_delete(files, file_id, scope).by_id(file_id) is None,
        !blobs_after_delete(files, blobs, file_id, scope).contains_key(
            files.by_id(file_id)->0.file_path,
        ),
{
    let after = files_after_delete(files, file_id, scope);
    files.lemma_delete_wf(file_id);
    let k = choose|i: int| files.id_at(file_id, i);
    if exists|i: int| after.id_at(file_id, i) {
        let i = choose|i: int| after.id_at(file_id, i);
        let a = if i < k { i } else { i + 1 };
        assert(files.rows[a].id == file_id);
        if a < k {
            assert(files.rows[a].id != files.rows[k].id);
        } else {
            assert(files.rows[k].id != files.rows[a].id);
        }
    }
}

} // verus!
