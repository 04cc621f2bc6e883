//! The credential engine: password hashes, bearer tokens and reset codes.

use vstd::prelude::*;
use crate::config::primitives::{
    accepted_claims, bcrypt_hash, bcrypt_verify, decode_token, encode_token, hash_cost,
    member_i64, member_u64, password_matches, random_in, signed_token, unix_now,
};
use crate::models::auth::{Auth, Claims, CredentialError};

verus! {

/// Work factor of every password hash.
pub const HASH_COST: u32 = 10;

/// Seconds a token stays valid after it was issued: 24 hours.
pub const TOKEN_LIFETIME: i64 = 86400;

/// Reset codes are drawn from `CODE_LOW..CODE_HIGH`.
pub const CODE_LOW: u32 = 1000;

pub const CODE_HIGH: u32 = 9999;

/// The character that writes the digit `d`.
pub open spec fn digit_char(d: nat) -> char {
    if d == 0 {
        '0'
    } else if d == 1 {
        '1'
    } else if d == 2 {
        '2'
    } else if d == 3 {
        '3'
    } else if d == 4 {
        '4'
    } else if d == 5 {
        '5'
    } else if d == 6 {
        '6'
    } else if d == 7 {
        '7'
    } else if d == 8 {
        '8'
    } else {
        '9'
    }
}

/// `n` written in decimal, without leading zeros.
pub open spec fn decimal_text(n: nat) -> Seq<char>
    decreases n,
{
    if n < 10 {
        seq![digit_char(n)]
    } else {
        decimal_text(n / 10).push(digit_char(n % 10))
    }
}

/// Whether `code` is a number of `CODE_LOW..CODE_HIGH` written in decimal.
pub open spec fn is_reset_code(code: Seq<char>) -> bool {
    exists|n: nat| CODE_LOW <= n < CODE_HIGH && code == #[trigger] decimal_text(n)
}

/// The expiry of a token issued at `now`, where it can be written as a claim.
pub open spec fn expiry_after(now: int) -> Option<usize> {
    if 0 <= now + TOKEN_LIFETIME <= usize::MAX {
        Some((now + TOKEN_LIFETIME) as usize)
    } else {
        None
    }
}

/// The claims that `token` carries under `secret`: those of a token whose
/// shape and signature are accepted and whose `sub` and `exp` are integers in
/// the range of their fields.
pub open spec fn token_claims(token: Seq<char>, secret: Seq<char>) -> Option<Claims> {
    match accepted_claims(token, secret) {
        Some(members) => {
            if members.contains_key("sub"@) && i32::MIN <= members["sub"@] <= i32::MAX
                && members.contains_key("exp"@) && 0 <= members["exp"@] <= usize::MAX {
                Some(Claims { sub: members["sub"@] as i32, exp: members["exp"@] as usize })
            } else {
                None
            }
        },
        None => None,
    }
}

/// What verifying `token` at the second `now` yields.
pub open spec fn verify_outcome(token: Seq<char>, secret: Seq<char>, now: int) -> Result<
    i32,
    CredentialError,
> {
    match token_claims(token, secret) {
        None => Err(CredentialError::InvalidToken),
        Some(claims) => if claims.exp < now {
            Err(CredentialError::ExpiredToken)
        } else {
            Ok(claims.sub)
        },
    }
}

/// What signing a token for `user_id` at the second `now` gives: the token
/// signed for that user with the expiry 24 hours later. `None` where that
/// expiry cannot be written as a claim, or where the signer refuses.
pub open spec fn issued_token(secret: Seq<char>, user_id: i32, now: int) -> Option<Seq<char>> {
    match expiry_after(now) {
        Some(exp) => signed_token(secret, user_id as int, exp as int),
        None => None,
    }
}

/// Whether `token` is the token issued to `user_id` at the second `now`,
/// and reads back as the claims it was signed for.
pub open spec fn is_token_of(secret: Seq<char>, user_id: i32, now: int, token: Seq<char>) -> bool {
    &&& issued_token(secret, user_id, now) == Some(token)
    &&& expiry_after(now) matches Some(exp)
    &&& token_claims(token, secret) == Some(Claims { sub: user_id, exp })
}

/// Whether `r` is the result of issuing a token for `user_id` at `now`: the
/// issued token wherever there is one, else the failure that names what is
/// in the way.
pub open spec fn issue_outcome(
    secret: Seq<char>,
    user_id: i32,
    now: int,
    r: Result<String, CredentialError>,
) -> bool {
    match issued_token(secret, user_id, now) {
        Some(token) => r matches Ok(t) && t@ == token && is_token_of(secret, user_id, now, token),
        None => r matches Err(e) && e == if expiry_after(now) is Some {
            CredentialError::SigningFailed
        } else {
            CredentialError::ExpiryOutOfRange
        },
    }
}

fn digit_text(d: u32) -> (r: &'static str)
    requires
        d < 10,
    ensures
        r@ == seq![digit_char(d as nat)],
{
    proof {
        reveal_strlit("0");
        reveal_strlit("1");
        reveal_strlit("2");
        reveal_strlit("3");
        reveal_strlit("4");
        reveal_strlit("5");
        reveal_strlit("6");
        reveal_strlit("7");
        reveal_strlit("8");
        reveal_strlit("9");
    }
    let r = if d == 0 {
        "0"
    } else if d == 1 {
        "1"
    } else if d == 2 {
        "2"
    } else if d == 3 {
        "3"
    } else if d == 4 {
        "4"
    } else if d == 5 {
        "5"
    } else if d == 6 {
        "6"
    } else if d == 7 {
        "7"
    } else if d == 8 {
        "8"
    } else {
        "9"
    };
    assert(r@ =~= seq![digit_char(d as nat)]);
    r
}

/// Writes `n` in decimal.
pub fn decimal(n: u32) -> (r: String)
    ensures
        r@ == decimal_text(n as nat),
    decreases n,
{
    if n < 10 {
        String::from_str(digit_text(n))
    } else {
        let head = decimal(n / 10);
        let r = head.concat(digit_text(n % 10));
        assert(r@ =~= decimal_text((n / 10) as nat).push(digit_char((n % 10) as nat)));
        r
    }
}

impl Claims {
    /// The claims of a token issued to `user_id` at the second `now`: it
    /// expires 24 hours later. `None` where that second cannot be written
    /// as a claim.
    pub fn issued_at(user_id: i32, now: i64) -> (r: Option<Claims>)
        ensures
            r == match expiry_after(now as int) {
                Some(exp) => Some(Claims { sub: user_id, exp }),
                None => None,
            },
    {
        if now < -TOKEN_LIFETIME {
            return None;
        }
        let end: u64 = if now < 0 {
            (now + TOKEN_LIFETIME) as u64
        } else {
            now as u64 + TOKEN_LIFETIME as u64
        };
        if end > usize::MAX as u64 {
            None
        } else {
            Some(Claims { sub: user_id, exp: end as usize })
        }
    }

    /// Whether the token is past its expiry at the second `now`.
    pub fn expired_at(&self, now: i64) -> (r: bool)
        ensures
            r == (self.exp < now),
    {
        now > 0 && (self.exp as u64) < (now as u64)
    }
}

impl Auth {
    /// The engine that signs with `secret_key`.
    pub fn new(secret_key: String) -> (auth: Auth)
        ensures
            auth.secret_key@ == secret_key@,
    {
        Auth { secret_key }
    }

    /// A fresh reset code: a number drawn from `CODE_LOW..CODE_HIGH`,
    /// written in decimal.
    pub fn generate_code() -> (code: String)
        ensures
            is_reset_code(code@),
    {
        let n = random_in(CODE_LOW, CODE_HIGH);
        let code = decimal(n);
        assert(code@ == decimal_text(n as nat));
        code
    }

    /// Signs a token for `user_id` that was issued at the second `now`. It
    /// succeeds wherever the expiry can be written as a claim and the
    /// signer signs.
    pub fn generate_jwt_at(&self, user_id: i32, now: i64) -> (r: Result<String, CredentialError>)
        ensures
            issue_outcome(self.secret_key@, user_id, now as int, r),
            r is Ok <==> (expiry_after(now as int) matches Some(exp) && signed_token(
                self.secret_key@,
                user_id as int,
                exp as int,
            ) is Some),
    {
        match Claims::issued_at(user_id, now) {
            None => Err(CredentialError::ExpiryOutOfRange),
            Some(claims) => match encode_token(self.secret_key.as_str(), claims.sub, claims.exp) {
                Ok(token) => {
                    proof {
                        reveal_strlit("sub");
                        reveal_strlit("exp");
                        assert("sub"@ != "exp"@) by {
                            assert("sub"@[0] != "exp"@[0]);
                        }
                    }
                    Ok(token)
                },
                Err(_) => Err(CredentialError::SigningFailed),
            },
        }
    }

    /// Signs a token for `user_id` that expires 24 hours from now.
    pub fn generate_jwt(&self, user_id: i32) -> (r: Result<String, CredentialError>)
        ensures
            exists|now: i64| #[trigger] issue_outcome(self.secret_key@, user_id, now as int, r),
    {
        let now = unix_now();
        let r = self.generate_jwt_at(user_id, now);
        assert(issue_outcome(self.secret_key@, user_id, now as int, r));
        r
    }

    /// Reads the claims of `token`: its shape and signature are checked, its
    /// expiry is not.
    pub fn read_claims(&self, token: &str) -> (r: Option<Claims>)
        ensures
            r == token_claims(token@, self.secret_key@),
    {
        match decode_token(token, self.secret_key.as_str()) {
            Err(_) => None,
            Ok(members) => {
                let sub = member_i64(&members, "sub");
                let exp = member_u64(&members, "exp");
                match (sub, exp) {
                    (Some(sub), Some(exp)) => {
                        if sub < i32::MIN as i64 || sub > i32::MAX as i64 {
                            None
                        } else if exp > usize::MAX as u64 {
                            None
                        } else {
                            Some(Claims { sub: sub as i32, exp: exp as usize })
                        }
                    },
                    _ => None,
                }
            },
        }
    }

    /// Verifies `token` at the second `now`: the user it was issued to, where
    /// shape and signature are accepted and the expiry is not in the past.
    pub fn verify_jwt_at(&self, token: &str, now: i64) -> (r: Result<i32, CredentialError>)
        ensures
            r == verify_outcome(token@, self.secret_key@, now as int),
    {
        match self.read_claims(token) {
            None => Err(CredentialError::InvalidToken),
            Some(claims) => {
                if claims.expired_at(now) {
                    Err(CredentialError::ExpiredToken)
                } else {
                    Ok(claims.sub)
                }
            },
        }
    }

    /// Verifies `token` against the system clock.
    pub fn verify_jwt(&self, token: &str) -> (r: Result<i32, CredentialError>)
        ensures
            exists|now: i64| r == #[trigger] verify_outcome(token@, self.secret_key@, now as int),
    {
        let now = unix_now();
        let r = self.verify_jwt_at(token, now);
        assert(r == verify_outcome(token@, self.secret_key@, now as int));
        r
    }

    /// A salted one-way hash of `password` at the work factor `HASH_COST`,
    /// which [`Auth::verify_password`] accepts for the same password.
    pub fn hash_password(&self, password: &str) -> (r: Result<String, CredentialError>)
        ensures
            match r {
                Ok(hash) => password_matches(password@, hash@) == Some(true) && hash_cost(hash@)
                    == Some(HASH_COST as nat),
                Err(e) => e == CredentialError::HashingFailed,
            },
    {
        match bcrypt_hash(password, HASH_COST) {
            Ok(hash) => Ok(hash),
            Err(_) => Err(CredentialError::HashingFailed),
        }
    }

    /// Whether `password` is the one that `hashed_password` was made from.
    /// A stored hash that cannot be read matches no password.
    pub fn verify_password(&self, password: &str, hashed_password: &str) -> (r: bool)
        ensures
            r == (password_matches(password@, hashed_password@) == Some(true)),
    {
        match bcrypt_verify(password, hashed_password) {
            Ok(matches) => matches,
            Err(_) => false,
        }
    }
}

} // verus!
