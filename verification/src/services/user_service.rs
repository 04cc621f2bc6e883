//! Reading a user record.

use vstd::prelude::*;
use crate::config::api::{auth_header, gate_outcome, header_text};
use crate::db::users::{UserTable, UserTableView};
use crate::models::api::{
    describe, rejected, with_data, ErrorKind, Payload, PayloadView, Response, ResponseView,
    StoreError,
};
use crate::models::auth::{Auth, AuthVerifyResponse};
use crate::models::user::{User, UserView};
use crate::repositories::user_repository::find_user_by_id;
use crate::services::auth_service::lookup_view;

verus! {

/// The user a verdict speaks for: none unless it is authorized and names
/// one.
pub open spec fn caller_of(verdict: AuthVerifyResponse) -> Option<i32> {
    if verdict.authorized {
        verdict.user_id
    } else {
        None
    }
}

/// The answer that ends a request for the record of user `id` before any
/// lookup: 401 without a caller, 403 where the caller is not user `id`.
/// `None` where the caller asks for its own record.
pub open spec fn user_refusal(verdict: AuthVerifyResponse, id: i32) -> Option<ResponseView> {
    match caller_of(verdict) {
        None => Some(rejected(ErrorKind::Unauthorized, "Unauthorized"@)),
        Some(caller) => if caller != id {
            Some(rejected(ErrorKind::Forbidden, "Forbidden"@))
        } else {
            None
        },
    }
}

/// The answer to a request for the record of user `id`, the authorization
/// having given `verdict` and the lookup by id having answered `found`.
///
/// 401 without a caller. 403, with no payload, wherever the caller is not
/// user `id`, whether or not there is such a user. For the caller's own id
/// the lookup decides: 200 with the record, its hash removed; 404 where
/// there is no such user; 500 where the lookup failed. A record that is
/// not the caller's own is never handed out.
pub open spec fn user_answer(
    verdict: AuthVerifyResponse,
    id: i32,
    found: Result<Option<UserView>, Seq<char>>,
) -> ResponseView {
    match user_refusal(verdict, id) {
        Some(refusal) => refusal,
        None => match found {
            Ok(Some(user)) => if user.id != id {
                rejected(ErrorKind::Forbidden, "Forbidden"@)
            } else {
                with_data(200, "User fetched successfully"@, PayloadView::User(user.public()))
            },
            Ok(None) => rejected(ErrorKind::NotFound, "User not found"@),
            Err(e) => rejected(ErrorKind::Internal, "Internal server error: "@ + e),
        },
    }
}

/// The first decision of every protected handler: the caller's id, or 401.
pub fn authorized_caller(verify: &AuthVerifyResponse) -> (r: Result<i32, Response>)
    ensures
        match caller_of(*verify) {
            Some(caller) => r matches Ok(id) && id == caller,
            None => r matches Err(answer) && answer@ == rejected(ErrorKind::Unauthorized, "Unauthorized"@),
        },
{
    if !verify.authorized {
        return Err(Response::rejected(ErrorKind::Unauthorized, "Unauthorized"));
    }
    match verify.user_id {
        Some(caller) => Ok(caller),
        None => Err(Response::rejected(ErrorKind::Unauthorized, "Unauthorized")),
    }
}

/// The first decision of a request for the record of user `id`: the answer
/// that ends it before any lookup, or `None` to go on.
pub fn get_user_check(verify: &AuthVerifyResponse, id: i32) -> (r: Option<Response>)
    ensures
        match user_refusal(*verify, id) {
            Some(refusal) => r matches Some(answer) && answer@ == refusal,
            None => r is None,
        },
{
    let caller = match authorized_caller(verify) {
        Ok(caller) => caller,
        Err(answer) => return Some(answer),
    };
    if caller != id {
        Some(Response::rejected(ErrorKind::Forbidden, "Forbidden"))
    } else {
        None
    }
}

/// The answer to a request for the record of user `id`, on what the lookup
/// by id answered.
pub fn get_user_found(
    verify: &AuthVerifyResponse,
    id: i32,
    found: Result<Option<User>, StoreError>,
) -> (answer: Response)
    ensures
        answer@ == user_answer(*verify, id, lookup_view(found)),
{
    match get_user_check(verify, id) {
        Some(answer) => return answer,
        None => {},
    }
    match found {
        Ok(Some(user)) => {
            if user.id != id {
                return Response::rejected(ErrorKind::Forbidden, "Forbidden");
            }
            Response::with_payload(
                200,
                "User fetched successfully",
                Payload::User(user.without_password()),
            )
        },
        Ok(None) => Response::rejected(ErrorKind::NotFound, "User not found"),
        Err(e) => Response::rejected_with(
            ErrorKind::Internal,
            describe("Internal server error: ", e.message.as_str()),
        ),
    }
}

/// The answer, over the user table, to a request for the record of user
/// `id` under `verdict`: 401 without a caller, 403 for any id but the
/// caller's own, else the caller's record or 404.
pub open spec fn user_outcome(verdict: AuthVerifyResponse, id: i32, users: UserTableView)
    -> ResponseView {
    match user_refusal(verdict, id) {
        Some(refusal) => refusal,
        None => match users.by_id(id) {
            Some(user) => with_data(
                200,
                "User fetched successfully"@,
                PayloadView::User(user.public()),
            ),
            None => rejected(ErrorKind::NotFound, "User not found"@),
        },
    }
}

/// Answers a request for the record of user `id`, `authorization` being the
/// request's `Authorization` value.
pub fn get_user(users: &UserTable, auth: &Auth, id: i32, authorization: Option<&str>) -> (answer:
    Response)
    ensures
        exists|now: i64|
            answer@ == user_outcome(
                #[trigger] gate_outcome(header_text(authorization), auth.secret_key@, now as int),
                id,
                users@,
            ),
{
    let verify = auth_header(auth, authorization);
    if let Some(answer) = get_user_check(&verify, id) {
        return answer;
    }
    let found = find_user_by_id(users, id);
    get_user_found(&verify, id, found)
}

} // verus!
