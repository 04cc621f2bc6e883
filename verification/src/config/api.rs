//! The request authorization gate.

use vstd::prelude::*;
use crate::config::auth::verify_outcome;
use crate::config::primitives::unix_now;
use crate::config::text::{lemma_tail_start, split_last, tail_after};
use crate::models::auth::{Auth, AuthVerifyResponse};

verus! {

/// The credential in an `Authorization` value: its last space-delimited
/// segment. Both `Bearer <token>` and a bare token are read this way.
pub open spec fn bearer_token(header: Seq<char>) -> Seq<char> {
    tail_after(header, ' ')
}

/// The last space-delimited segment of `header`.
pub fn last_segment_of(header: &str) -> (token: &str)
    ensures
        token@ == bearer_token(header@),
{
    split_last(header, ' ').1
}

/// The characters of an optional header value.
pub open spec fn header_text(header: Option<&str>) -> Option<Seq<char>> {
    match header {
        Some(value) => Some(value@),
        None => None,
    }
}

/// The verdict that refuses a request.
pub open spec fn denied() -> AuthVerifyResponse {
    AuthVerifyResponse { authorized: false, user_id: None }
}

/// The verdict on a request whose `Authorization` value is `header`, at the
/// second `now`. Every failure gives the same refusal.
pub open spec fn gate_outcome(header: Option<Seq<char>>, secret: Seq<char>, now: int)
    -> AuthVerifyResponse {
    match header {
        None => denied(),
        Some(value) => if bearer_token(value).len() == 0 {
            denied()
        } else {
            match verify_outcome(bearer_token(value), secret, now) {
                Ok(user_id) => AuthVerifyResponse { authorized: true, user_id: Some(user_id) },
                Err(_) => denied(),
            }
        },
    }
}

/// The verdict at the second `now` on a request whose `Authorization`
/// value is `header` (`None` where the request has none, or one that is not
/// text).
pub fn auth_header_at(auth: &Auth, header: Option<&str>, now: i64) -> (verdict:
    AuthVerifyResponse)
    ensures
        verdict == gate_outcome(
            header_text(header),
            auth.secret_key@,
            now as int,
        ),
{
    let value = match header {
        Some(value) => value,
        None => return AuthVerifyResponse { authorized: false, user_id: None },
    };
    if value.is_empty() {
        assert(bearer_token(value@).len() == 0) by {
            lemma_tail_start(value@, ' ');
        }
        return AuthVerifyResponse { authorized: false, user_id: None };
    }
    let token = last_segment_of(value);
    if token.is_empty() {
        return AuthVerifyResponse { authorized: false, user_id: None };
    }
    match auth.verify_jwt_at(token, now) {
        Ok(user_id) => AuthVerifyResponse { authorized: true, user_id: Some(user_id) },
        Err(_) => AuthVerifyResponse { authorized: false, user_id: None },
    }
}

/// The verdict by the system clock.
pub fn auth_header(auth: &Auth, header: Option<&str>) -> (verdict: AuthVerifyResponse)
    ensures
        exists|now: i64|
            verdict == #[trigger] gate_outcome(
                header_text(header),
                auth.secret_key@,
                now as int,
            ),
{
    let now = unix_now();
    let verdict = auth_header_at(auth, header, now);
    assert(verdict == gate_outcome(header_text(header), auth.secret_key@, now as int));
    verdict
}

} // verus!
