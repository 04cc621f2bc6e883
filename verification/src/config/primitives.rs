//! The calls this library makes into other crates. Nothing in this file is
//! proved: each contract restates what the called crate documents, and the
//! rest of the library is verified against these contracts.

use vstd::prelude::*;

verus! {

/// `jsonwebtoken::errors::Error`, carried through unread.
#[verifier::external_type_specification]
#[verifier::external_body]
pub struct ExTokenFault(jsonwebtoken::errors::Error);

/// `bcrypt::BcryptError`, carried through unread.
#[verifier::external_type_specification]
#[verifier::external_body]
pub struct ExHashFault(bcrypt::BcryptError);

/// `serde_json::Value`, read only through [`integer_members`].
#[verifier::external_type_specification]
#[verifier::external_body]
pub struct ExJson(serde_json::Value);

/// The members of a JSON object whose value is an integer, by name. Empty
/// for a value that is not an object.
pub uninterp spec fn integer_members(value: serde_json::Value) -> Map<Seq<char>, int>;

/// What `jsonwebtoken::encode` makes of the claims `sub = subject` and
/// `exp = expires_at` under `secret`: the HS256 token, or `None` where it
/// refuses to sign.
pub uninterp spec fn signed_token(secret: Seq<char>, subject: int, expires_at: int) -> Option<
    Seq<char>,
>;

/// The integer claims of `token`, where `jsonwebtoken::decode` accepts its
/// shape and its HS256 signature under `secret` and finds an `exp` claim;
/// `None` where it refuses the token. Expiry is not looked at.
pub uninterp spec fn accepted_claims(token: Seq<char>, secret: Seq<char>) -> Option<
    Map<Seq<char>, int>,
>;

/// What `bcrypt::verify` says of `password` against `hash`: `None` where it
/// cannot read `hash`.
pub uninterp spec fn password_matches(password: Seq<char>, hash: Seq<char>) -> Option<bool>;

/// The work factor that the text of a bcrypt hash records: the two decimal
/// digits between its second and its third `$`. `None` for a text of another
/// shape.
pub open spec fn hash_cost(hash: Seq<char>) -> Option<nat> {
    if hash.len() >= 7 && hash[0] == '$' && hash[3] == '$' && hash[6] == '$' && 48
        <= hash[4] as u32 <= 57 && 48 <= hash[5] as u32 <= 57 {
        Some((10 * (hash[4] as u32 - 48) + (hash[5] as u32 - 48)) as nat)
    } else {
        None
    }
}

/// The claims of a token as they come out of [`decode_token`].
pub open spec fn claims_map(subject: int, expires_at: int) -> Map<Seq<char>, int> {
    Map::<Seq<char>, int>::empty().insert("sub"@, subject).insert("exp"@, expires_at)
}

/// `rand::Rng::gen_range` on the thread-local generator: some number in
/// `low..high`. The call panics on an empty range, which `requires` excludes.
#[verifier::external_body]
pub(crate) fn random_in(low: u32, high: u32) -> (r: u32)
    requires
        low < high,
    ensures
        low <= r < high,
{
    rand::Rng::gen_range(&mut rand::thread_rng(), low..high)
}

/// `chrono::Utc::now().timestamp()`: the seconds since the Unix epoch by the
/// system clock. Nothing is claimed of the value. chrono itself gives up on a
/// clock set before 1970.
#[verifier::external_body]
pub(crate) fn unix_now() -> (r: i64) {
    chrono::Utc::now().timestamp()
}

/// `bcrypt::hash`: a salted hash of `password` at `cost`. The salt is random,
/// so the hash has no name. What the crate guarantees of every hash it hands
/// out is that `bcrypt::verify` accepts the same password against it and that
/// its text, `$2b$`, the cost in two digits, `$` and 53 more characters,
/// records the cost. A cost outside 4 to 31 is refused.
#[verifier::external_body]
pub(crate) fn bcrypt_hash(password: &str, cost: u32) -> (r: Result<String, bcrypt::BcryptError>)
    ensures
        !(4 <= cost <= 31) ==> r is Err,
        r matches Ok(h) ==> password_matches(password@, h@) == Some(true) && hash_cost(h@)
            == Some(cost as nat),
{
    bcrypt::hash(password, cost)
}

/// `bcrypt::verify`: whether `password` hashes to `hash`, or the crate's
/// error where `hash` is not a bcrypt hash.
#[verifier::external_body]
pub(crate) fn bcrypt_verify(password: &str, hash: &str) -> (r: Result<bool, bcrypt::BcryptError>)
    ensures
        match r {
            Ok(b) => password_matches(password@, hash@) == Some(b),
            Err(_) => password_matches(password@, hash@) is None,
        },
{
    bcrypt::verify(password, hash)
}

/// `jsonwebtoken::encode` with the default (HS256) header, the claims `sub`
/// and `exp`, and `secret` as the HMAC key. Whether it signs, and the token
/// it signs, are a function of these three, and `jsonwebtoken::decode` under
/// the same secret gives the two claims back.
#[verifier::external_body]
pub(crate) fn encode_token(secret: &str, subject: i32, expires_at: usize) -> (r: Result<
    String,
    jsonwebtoken::errors::Error,
>)
    ensures
        match r {
            Ok(t) => signed_token(secret@, subject as int, expires_at as int) == Some(t@)
                && accepted_claims(t@, secret@) == Some(
                claims_map(subject as int, expires_at as int),
            ),
            Err(_) => signed_token(secret@, subject as int, expires_at as int) is None,
        },
{
    let mut claims = serde_json::Map::new();
    claims.insert(String::from("sub"), serde_json::Value::from(subject));
    claims.insert(String::from("exp"), serde_json::Value::from(expires_at));
    let key = jsonwebtoken::EncodingKey::from_secret(secret.as_bytes());
    jsonwebtoken::encode(&jsonwebtoken::Header::default(), &claims, &key)
}

/// `jsonwebtoken::decode` with the default (HS256) validation, except that
/// the comparison of `exp` with the clock is switched off: the outcome then
/// depends on `token` and `secret` alone. The claim set comes back as JSON.
#[verifier::external_body]
pub(crate) fn decode_token(token: &str, secret: &str) -> (r: Result<
    serde_json::Value,
    jsonwebtoken::errors::Error,
>)
    ensures
        match r {
            Ok(claims) => accepted_claims(token@, secret@) == Some(integer_members(claims)),
            Err(_) => accepted_claims(token@, secret@) is None,
        },
{
    let mut validation = jsonwebtoken::Validation::default();
    validation.validate_exp = false;
    let key = jsonwebtoken::DecodingKey::from_secret(secret.as_bytes());
    jsonwebtoken::decode::<serde_json::Value>(token, &key, &validation).map(|data| data.claims)
}

/// The member `name` of `claims`, where it is an integer from `low` to
/// `high`.
pub open spec fn member_within(claims: serde_json::Value, name: Seq<char>, low: int, high: int)
    -> Option<int> {
    let members = integer_members(claims);
    if members.contains_key(name) && low <= members[name] <= high {
        Some(members[name])
    } else {
        None
    }
}

/// `serde_json::Value::get` followed by `as_i64`: the member `name` where it
/// is an integer that fits `i64`.
#[verifier::external_body]
pub(crate) fn member_i64(claims: &serde_json::Value, name: &str) -> (r: Option<i64>)
    ensures
        r == match member_within(*claims, name@, i64::MIN as int, i64::MAX as int) {
            Some(n) => Some(n as i64),
            None => None,
        },
{
    claims.get(name)?.as_i64()
}

/// `serde_json::Value::get` followed by `as_u64`: the member `name` where it
/// is an integer that fits `u64`.
#[verifier::external_body]
pub(crate) fn member_u64(claims: &serde_json::Value, name: &str) -> (r: Option<u64>)
    ensures
        r == match member_within(*claims, name@, 0, u64::MAX as int) {
            Some(n) => Some(n as u64),
            None => None,
        },
{
    claims.get(name)?.as_u64()
}

} // verus!
