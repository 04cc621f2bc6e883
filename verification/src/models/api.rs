use vstd::prelude::*;
use crate::models::files::{rows_view, FileData, FileDataView};
use crate::models::user::{text_of, User, UserView};

verus! {

/// What a response carries besides its code and message.
#[derive(Debug, Clone, PartialEq, Eq)]
pub enum Payload {
    /// A freshly signed bearer token.
    Token(String),
    /// The id of a newly registered user.
    UserId(i32),
    /// A user record, hash removed.
    User(User),
    /// The id of a newly stored file.
    FileId(i32),
    /// The rows a listing found.
    Files(Vec<FileData>),
    /// A plain confirmation.
    Message(String),
}

/// Mathematical value of a [`Payload`].
pub enum PayloadView {
    Token(Seq<char>),
    UserId(i32),
    User(UserView),
    FileId(i32),
    Files(Seq<FileDataView>),
    Message(Seq<char>),
}

impl View for Payload {
    type V = PayloadView;

    open spec fn view(&self) -> PayloadView {
        match *self {
            Payload::Token(t) => PayloadView::Token(t@),
            Payload::UserId(id) => PayloadView::UserId(id),
            Payload::User(u) => PayloadView::User(u@),
            Payload::FileId(id) => PayloadView::FileId(id),
            Payload::Files(rows) => PayloadView::Files(rows_view(rows@)),
            Payload::Message(m) => PayloadView::Message(m@),
        }
    }
}

/// The value of an optional payload.
pub open spec fn payload_of(data: Option<Payload>) -> Option<PayloadView> {
    match data {
        Some(p) => Some(p@),
        None => None,
    }
}

/// The kinds of failure an answer can report.
#[derive(Debug, Clone, Copy, PartialEq, Eq)]
pub enum ErrorKind {
    /// The request is empty or malformed.
    Validation,
    /// The token is missing, invalid or expired, or the credentials are wrong.
    Unauthorized,
    /// The caller is known but not entitled.
    Forbidden,
    /// There is no such user, code or file.
    NotFound,
    /// The email is registered already.
    Conflict,
    /// A store or a backing service failed.
    Internal,
}

impl ErrorKind {
    /// The status code that reports this kind of failure.
    pub open spec fn status_of(self) -> i32 {
        match self {
            ErrorKind::Validation => 400,
            ErrorKind::Unauthorized => 401,
            ErrorKind::Forbidden => 403,
            ErrorKind::NotFound => 404,
            ErrorKind::Conflict => 400,
            ErrorKind::Internal => 500,
        }
    }

    /// The status code that reports this kind of failure.
    pub fn status(self) -> (code: i32)
        ensures
            code == self.status_of(),
    {
        match self {
            ErrorKind::Validation => 400,
            ErrorKind::Unauthorized => 401,
            ErrorKind::Forbidden => 403,
            ErrorKind::NotFound => 404,
            ErrorKind::Conflict => 400,
            ErrorKind::Internal => 500,
        }
    }
}

/// The envelope around every answer: a status code, a message and a payload,
/// and the kind of failure where it reports one.
#[derive(Debug, Clone, PartialEq, Eq)]
pub struct Response {
    pub code: i32,
    pub message: Option<String>,
    pub data: Option<Payload>,
    pub error: Option<ErrorKind>,
}

/// Mathematical value of a [`Response`].
pub struct ResponseView {
    pub code: i32,
    pub message: Option<Seq<char>>,
    pub data: Option<PayloadView>,
    pub error: Option<ErrorKind>,
}

impl View for Response {
    type V = ResponseView;

    open spec fn view(&self) -> ResponseView {
        ResponseView {
            code: self.code,
            message: text_of(self.message),
            data: payload_of(self.data),
            error: self.error,
        }
    }
}

/// The answer that reports a failure of `kind`, under the status code of
/// that kind.
pub open spec fn rejected(kind: ErrorKind, message: Seq<char>) -> ResponseView {
    ResponseView { code: kind.status_of(), message: Some(message), data: None, error: Some(kind) }
}

/// The answer that reports success under `code`, without a payload.
pub open spec fn accepted(code: i32, message: Seq<char>) -> ResponseView {
    ResponseView { code, message: Some(message), data: None, error: None }
}

/// The answer that reports success under `code` and carries `data`.
pub open spec fn with_data(code: i32, message: Seq<char>, data: PayloadView) -> ResponseView {
    ResponseView { code, message: Some(message), data: Some(data), error: None }
}

impl Response {
    /// An answer that reports a failure of `kind`.
    pub fn rejected(kind: ErrorKind, message: &str) -> (r: Response)
        ensures
            r@ == rejected(kind, message@),
    {
        Response {
            code: kind.status(),
            message: Some(String::from_str(message)),
            data: None,
            error: Some(kind),
        }
    }

    /// An answer that reports a failure of `kind` with a message built at
    /// run time.
    pub fn rejected_with(kind: ErrorKind, message: String) -> (r: Response)
        ensures
            r@ == rejected(kind, message@),
    {
        Response { code: kind.status(), message: Some(message), data: None, error: Some(kind) }
    }

    /// An answer that reports success without a payload.
    pub fn accepted(code: i32, message: &str) -> (r: Response)
        ensures
            r@ == accepted(code, message@),
    {
        Response { code, message: Some(String::from_str(message)), data: None, error: None }
    }

    /// An answer that reports success and carries `data`.
    pub fn with_payload(code: i32, message: &str, data: Payload) -> (r: Response)
        ensures
            r@ == with_data(code, message@, data@),
    {
        Response { code, message: Some(String::from_str(message)), data: Some(data), error: None }
    }
}

/// A failure reported by a table or by the byte store, with the backend's
/// own description of it.
#[derive(Debug, Clone, PartialEq, Eq)]
pub struct StoreError {
    pub message: String,
}

impl View for StoreError {
    type V = Seq<char>;

    open spec fn view(&self) -> Seq<char> {
        self.message@
    }
}

/// `prefix` followed by `detail`.
pub fn describe(prefix: &str, detail: &str) -> (r: String)
    ensures
        r@ == prefix@ + detail@,
{
    String::from_str(prefix).concat(detail)
}

} // verus!
