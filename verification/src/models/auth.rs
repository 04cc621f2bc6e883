use vstd::prelude::*;

verus! {

/// The credential engine's configuration: the key that signs bearer tokens.
/// It is read once when the process starts and handed on by value.
#[derive(Debug, Clone, PartialEq, Eq)]
pub struct Auth {
    pub secret_key: String,
}

/// Body of a registration request. Where a record is about to be stored,
/// `password` holds the hash.
#[derive(Debug, Clone, PartialEq, Eq)]
pub struct RegisterUser {
    pub email: String,
    pub password: String,
    pub name: String,
}

/// A password-reset code and the user it was issued to.
#[derive(Debug, PartialEq, Eq)]
pub struct Code {
    pub id: i32,
    pub code: String,
    pub user_id: i32,
}

/// Mathematical value of a [`Code`].
pub struct CodeView {
    pub id: i32,
    pub code: Seq<char>,
    pub user_id: i32,
}

impl View for Code {
    type V = CodeView;

    open spec fn view(&self) -> CodeView {
        CodeView { id: self.id, code: self.code@, user_id: self.user_id }
    }
}

impl Clone for Code {
    fn clone(&self) -> (r: Code)
        ensures
            r@ == self@,
    {
        Code { id: self.id, code: self.code.clone(), user_id: self.user_id }
    }
}

/// Body of a login request.
#[derive(Debug, Clone, PartialEq, Eq)]
pub struct LoginUser {
    pub email: String,
    pub password: String,
}

/// Body of a reset-password request.
#[derive(Debug, Clone, PartialEq, Eq)]
pub struct ResetPassword {
    pub email: String,
    pub code: String,
    pub new_password: String,
}

/// Body of a forgot-password request.
#[derive(Debug, Clone, PartialEq, Eq)]
pub struct ForgotPassword {
    pub email: String,
}

/// What a bearer token carries: the user it was issued to and the second,
/// counted from the Unix epoch, after which it is no longer accepted.
#[derive(Debug, Clone, Copy, PartialEq, Eq)]
pub struct Claims {
    pub sub: i32,
    pub exp: usize,
}

/// The authorization verdict on one request.
#[derive(Debug, Clone, Copy, PartialEq, Eq)]
pub struct AuthVerifyResponse {
    pub authorized: bool,
    pub user_id: Option<i32>,
}

/// Why the credential engine could not do what it was asked.
#[derive(Debug, Clone, Copy, PartialEq, Eq)]
pub enum CredentialError {
    /// The token is malformed, carries a wrong signature, or lacks a claim.
    InvalidToken,
    /// The token's expiry lies in the past.
    ExpiredToken,
    /// The expiry of a new token cannot be written as a claim.
    ExpiryOutOfRange,
    /// The signing backend refused to produce a token.
    SigningFailed,
    /// The hashing backend refused to produce a hash.
    HashingFailed,
}

} // verus!
