//! Upload, listing and delete of files, behind the authorization gate.

use vstd::prelude::*;
use crate::config::api::{auth_header, gate_outcome, header_text};
use crate::config::files_actions::{
    blobs_after_delete, blobs_after_upload, delete_reply, files_after_delete, files_after_upload,
    listing, selected_rows, upload_reply,
};
use crate::db::blobs::ByteStore;
use crate::db::files::{FileTable, FileTableView};
use crate::db::users::{UserTable, UserTableView};
use crate::models::api::{rejected, ErrorKind, Response, ResponseView, StoreError};
use crate::models::auth::{Auth, AuthVerifyResponse};
use crate::models::files::{
    DeleteError, FileAction, FileError, FileResponse, FileResponseView, GetFiles, ListError,
    UploadError, UploadPart,
};
use crate::models::user::User;
use crate::repositories::user_repository::find_user_by_id;
use crate::services::user_service::{authorized_caller, caller_of};

verus! {

/// The caller that a protected file request is carried out for: the user
/// the verdict speaks for, where that user is still registered.
pub open spec fn admitted(verdict: AuthVerifyResponse, users: UserTableView) -> Option<i32> {
    match caller_of(verdict) {
        Some(caller) => if users.by_id(caller) is Some {
            Some(caller)
        } else {
            None
        },
        None => None,
    }
}

/// The answer to a file request that is not carried out.
pub open spec fn refusal(verdict: AuthVerifyResponse) -> ResponseView {
    if caller_of(verdict) is None {
        rejected(ErrorKind::Unauthorized, "Unauthorized"@)
    } else {
        rejected(ErrorKind::Unauthorized, "User not found"@)
    }
}

/// The kind under which a failure of the file custody engine is reported.
pub open spec fn kind_of(error: Option<FileError>) -> ErrorKind {
    match error {
        Some(FileError::Upload(UploadError::NoFile)) => ErrorKind::Validation,
        Some(FileError::List(ListError::NoneFound)) => ErrorKind::NotFound,
        Some(FileError::Delete(DeleteError::NotFound)) => ErrorKind::NotFound,
        _ => ErrorKind::Internal,
    }
}

/// The answer that wraps what the file custody engine answered. Every
/// failure goes out under 400, with the engine's message and the kind of
/// the failure; success goes out under 200 with `message` and the engine's
/// payload.
pub open spec fn file_reply(engine: FileResponseView, message: Seq<char>) -> ResponseView {
    if engine.is_error {
        ResponseView {
            code: 400,
            message: Some(engine.error_message),
            data: None,
            error: Some(kind_of(engine.error)),
        }
    } else {
        ResponseView { code: 200, message: Some(message), data: engine.data, error: None }
    }
}

/// The second decision of every file handler, on what the lookup of the
/// caller answered: `None` to go on, or 401 where the caller is not found.
pub fn caller_checked(found: Result<Option<User>, StoreError>) -> (r: Option<Response>)
    ensures
        match found {
            Ok(Some(_)) => r is None,
            _ => r matches Some(answer) && answer@ == rejected(ErrorKind::Unauthorized, "User not found"@),
        },
{
    match found {
        Ok(Some(_)) => None,
        _ => Some(Response::rejected(ErrorKind::Unauthorized, "User not found")),
    }
}

/// The last decision of every file handler: the answer that wraps what the
/// engine answered.
pub fn file_answer(engine: FileResponse, message: &str) -> (answer: Response)
    ensures
        answer@ == file_reply(engine@, message@),
{
    if engine.is_error {
        let kind = match engine.error {
            Some(FileError::Upload(UploadError::NoFile)) => ErrorKind::Validation,
            Some(FileError::List(ListError::NoneFound)) => ErrorKind::NotFound,
            Some(FileError::Delete(DeleteError::NotFound)) => ErrorKind::NotFound,
            _ => ErrorKind::Internal,
        };
        Response { code: 400, message: Some(engine.error_message), data: None, error: Some(kind) }
    } else {
        Response {
            code: 200,
            message: Some(String::from_str(message)),
            data: engine.data,
            error: None,
        }
    }
}

/// The caller of a request with `verify`, looked up in `users`: the id to
/// act for, or the answer that ends the request.
fn resolve_caller(users: &UserTable, verify: &AuthVerifyResponse) -> (r: Result<i32, Response>)
    ensures
        match admitted(*verify, users@) {
            Some(caller) => r matches Ok(id) && id == caller,
            None => r matches Err(answer) && answer@ == refusal(*verify),
        },
{
    let caller = match authorized_caller(verify) {
        Ok(caller) => caller,
        Err(answer) => return Err(answer),
    };
    match caller_checked(find_user_by_id(users, caller)) {
        Some(answer) => Err(answer),
        None => Ok(caller),
    }
}

/// Whether `answer` and the stores after it are the result of an upload
/// under `verdict`.
pub open spec fn upload_outcome(
    verdict: AuthVerifyResponse,
    users: UserTableView,
    files_pre: FileTableView,
    files_post: FileTableView,
    blobs_pre: Map<Seq<char>, Seq<u8>>,
    blobs_post: Map<Seq<char>, Seq<u8>>,
    part: Option<UploadPart>,
    answer: ResponseView,
) -> bool {
    match admitted(verdict, users) {
        None => files_post == files_pre && blobs_post == blobs_pre && answer == refusal(verdict),
        Some(caller) => files_post == files_after_upload(files_pre, part, caller) && blobs_post
            == blobs_after_upload(blobs_pre, part) && answer == file_reply(
            upload_reply(files_pre, part),
            "File uploaded"@,
        ),
    }
}

/// Whether `answer` is the result of a listing by `action` under `verdict`.
pub open spec fn listing_outcome(
    action: FileAction,
    verdict: AuthVerifyResponse,
    users: UserTableView,
    files: FileTableView,
    ids: Seq<i32>,
    answer: ResponseView,
) -> bool {
    match admitted(verdict, users) {
        None => answer == refusal(verdict),
        Some(caller) => answer == file_reply(
            listing(selected_rows(files, action.scope_of(caller), caller, ids)),
            "Files found"@,
        ),
    }
}

/// Whether `answer` and the stores after it are the result of a delete by
/// `action` under `verdict`.
pub open spec fn delete_outcome(
    action: FileAction,
    verdict: AuthVerifyResponse,
    users: UserTableView,
    files_pre: FileTableView,
    files_post: FileTableView,
    blobs_pre: Map<Seq<char>, Seq<u8>>,
    blobs_post: Map<Seq<char>, Seq<u8>>,
    file_id: i32,
    answer: ResponseView,
) -> bool {
    match admitted(verdict, users) {
        None => files_post == files_pre && blobs_post == blobs_pre && answer == refusal(verdict),
        Some(caller) => {
            let scope = action.scope_of(caller);
            &&& files_post == files_after_delete(files_pre, file_id, scope)
            &&& blobs_post == blobs_after_delete(files_pre, blobs_pre, file_id, scope)
            &&& answer == file_reply(
                delete_reply(files_pre, blobs_pre, file_id, scope),
                "File deleted"@,
            )
        },
    }
}

/// Stores an upload for the caller. `authorization` is the request's
/// `Authorization` value, `part` the first part of its body.
pub fn upload_file(
    users: &UserTable,
    files: &mut FileTable,
    blobs: &mut ByteStore,
    auth: &Auth,
    authorization: Option<&str>,
    part: Option<UploadPart>,
) -> (answer: Response)
    ensures
        final(files)@.wf(),
        exists|now: i64|
            upload_outcome(
                #[trigger] gate_outcome(header_text(authorization), auth.secret_key@, now as int),
                users@,
                old(files)@,
                final(files)@,
                old(blobs)@,
                final(blobs)@,
                part,
                answer@,
            ),
{
    proof {
        use_type_invariant(&*files);
    }
    let verify = auth_header(auth, authorization);
    let caller = match resolve_caller(users, &verify) {
        Ok(caller) => caller,
        Err(answer) => return answer,
    };
    let engine = FileAction::upload_file(files, blobs, part, caller);
    file_answer(engine, "File uploaded")
}

/// Lists files for the caller: the caller's own where `body.file_ids` is
/// empty or starts with -1, else the files with the listed ids that
/// `action` lets the caller see.
pub fn get_files(
    action: &FileAction,
    users: &UserTable,
    files: &FileTable,
    auth: &Auth,
    authorization: Option<&str>,
    body: GetFiles,
) -> (answer: Response)
    ensures
        exists|now: i64|
            listing_outcome(
                *action,
                #[trigger] gate_outcome(header_text(authorization), auth.secret_key@, now as int),
                users@,
                files@,
                body.file_ids@,
                answer@,
            ),
{
    let verify = auth_header(auth, authorization);
    let caller = match resolve_caller(users, &verify) {
        Ok(caller) => caller,
        Err(answer) => return answer,
    };
    let engine = action.get_files(files, caller, body.file_ids.as_slice());
    file_answer(engine, "Files found")
}

/// Deletes the file `file_id` for the caller, where `action` lets the
/// caller reach it.
pub fn delete_file(
    action: &FileAction,
    users: &UserTable,
    files: &mut FileTable,
    blobs: &mut ByteStore,
    auth: &Auth,
    authorization: Option<&str>,
    file_id: i32,
) -> (answer: Response)
    ensures
        final(files)@.wf(),
        exists|now: i64|
            delete_outcome(
                *action,
                #[trigger] gate_outcome(header_text(authorization), auth.secret_key@, now as int),
                users@,
                old(files)@,
                final(files)@,
                old(blobs)@,
                final(blobs)@,
                file_id,
                answer@,
            ),
{
    proof {
        use_type_invariant(&*files);
    }
    let verify = auth_header(auth, authorization);
    let caller = match resolve_caller(users, &verify) {
        Ok(caller) => caller,
        Err(answer) => return answer,
    };
    let engine = action.delete_file(files, blobs, file_id, caller);
    file_answer(engine, "File deleted")
}

} // verus!
