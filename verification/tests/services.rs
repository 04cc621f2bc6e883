use filemanager::config::send_email::{send_email, Mail};
use filemanager::db::blobs::ByteStore;
use filemanager::db::codes::CodeTable;
use filemanager::db::files::FileTable;
use filemanager::db::users::UserTable;
use filemanager::models::api::{ErrorKind, Payload, Response, StoreError};
use filemanager::models::auth::{
    Auth, AuthVerifyResponse, Code, ForgotPassword, LoginUser, RegisterUser, ResetPassword,
};
use filemanager::models::files::{
    FileAction, FileError, FileResponse, GetFiles, ListError, UploadPart,
};
use filemanager::models::user::User;
use filemanager::repositories::auth_repository::find_code_by_code;
use filemanager::repositories::user_repository::find_user_by_email;
use filemanager::services::auth_service::{
    forgot_password, forgot_password_check, forgot_password_found, forgot_password_sent, login,
    login_found, login_found_at, register, register_begin, register_checked, register_created,
    reset_password, reset_password_check, reset_password_code, reset_password_done,
    reset_password_user,
};
use filemanager::services::files_service::{
    caller_checked, delete_file, file_answer, get_files, upload_file,
};
use filemanager::services::user_service::{
    authorized_caller, get_user, get_user_check, get_user_found,
};

fn text(s: &str) -> String {
    s.to_string()
}

fn engine() -> Auth {
    Auth::new("service-secret".to_string())
}

fn rejected(kind: ErrorKind, code: i32, message: &str) -> Response {
    Response { code, message: Some(text(message)), data: None, error: Some(kind) }
}

fn accepted(code: i32, message: &str, data: Option<Payload>) -> Response {
    Response { code, message: Some(text(message)), data, error: None }
}

fn signup(email: &str, password: &str, name: &str) -> RegisterUser {
    RegisterUser { email: text(email), password: text(password), name: text(name) }
}

fn credentials(email: &str, password: &str) -> LoginUser {
    LoginUser { email: text(email), password: text(password) }
}

fn token_of(answer: &Response) -> String {
    match &answer.data {
        Some(Payload::Token(token)) => token.clone(),
        _ => panic!("the answer carries no token"),
    }
}

fn bearer(token: &str) -> String {
    format!("Bearer {}", token)
}

fn down() -> StoreError {
    StoreError { message: text("connection refused") }
}

fn stored(id: i32, email: &str, hash: &str, name: &str) -> User {
    User { id, email: text(email), password: Some(text(hash)), name: text(name) }
}

#[test]
fn register_then_login_yields_a_token_for_the_user() {
    let auth = engine();
    let mut users = UserTable::new();
    let registered = register(&mut users, &auth, signup("a@x.com", "pw", "A"));
    assert_eq!(registered, accepted(201, "User registered successfully", Some(Payload::UserId(1))));
    let answer = login(&users, &auth, credentials("a@x.com", "pw"));
    assert_eq!(answer.code, 200);
    assert_eq!(answer.message, Some(text("Successful authorization")));
    assert_eq!(auth.verify_jwt(&token_of(&answer)), Ok(1));
}

#[test]
fn register_stores_a_hash_not_the_password() {
    let auth = engine();
    let mut users = UserTable::new();
    register(&mut users, &auth, signup("a@x.com", "pw", "A"));
    let user = find_user_by_email(&users, text("a@x.com")).unwrap().unwrap();
    let hash = user.password.unwrap();
    assert_ne!(hash, "pw");
    assert!(auth.verify_password("pw", &hash));
}

#[test]
fn register_refuses_empty_fields() {
    let auth = engine();
    let mut users = UserTable::new();
    let expected = rejected(ErrorKind::Validation, 400, "Password, email and name cannot be empty");
    assert_eq!(register(&mut users, &auth, signup("", "pw", "A")), expected);
    assert_eq!(register(&mut users, &auth, signup("a@x.com", "", "A")), expected);
    assert_eq!(register(&mut users, &auth, signup("a@x.com", "pw", "")), expected);
    assert_eq!(find_user_by_email(&users, text("a@x.com")), Ok(None));
}

#[test]
fn register_refuses_a_taken_email() {
    let auth = engine();
    let mut users = UserTable::new();
    register(&mut users, &auth, signup("a@x.com", "pw", "A"));
    let again = register(&mut users, &auth, signup("a@x.com", "other", "B"));
    assert_eq!(again, rejected(ErrorKind::Conflict, 400, "User is already registered"));
    assert_eq!(login(&users, &auth, credentials("a@x.com", "pw")).code, 200);
    assert_eq!(login(&users, &auth, credentials("a@x.com", "other")).code, 401);
}

#[test]
fn login_with_wrong_password_is_unauthorized() {
    let auth = engine();
    let mut users = UserTable::new();
    register(&mut users, &auth, signup("a@x.com", "pw", "A"));
    let answer = login(&users, &auth, credentials("a@x.com", "wrong"));
    assert_eq!(answer, rejected(ErrorKind::Unauthorized, 401, "Invalid email or password"));
    let empty = login(&users, &auth, credentials("a@x.com", ""));
    assert_eq!(empty.code, 401);
}

#[test]
fn login_with_unknown_email_is_not_found() {
    let auth = engine();
    let mut users = UserTable::new();
    register(&mut users, &auth, signup("a@x.com", "pw", "A"));
    let answer = login(&users, &auth, credentials("b@x.com", "pw"));
    assert_eq!(answer, rejected(ErrorKind::NotFound, 404, "User not found"));
}

#[test]
fn login_decisions_follow_the_lookup() {
    let auth = engine();
    let body = credentials("a@x.com", "pw");
    let hash = auth.hash_password("pw").unwrap();
    assert_eq!(
        login_found(&auth, &body, Err(down())),
        rejected(ErrorKind::Internal, 500, "Server error")
    );
    assert_eq!(
        login_found(&auth, &body, Ok(None)),
        rejected(ErrorKind::NotFound, 404, "User not found")
    );
    let broken = login_found(&auth, &body, Ok(Some(stored(4, "a@x.com", "not-a-hash", "A"))));
    assert_eq!(broken.code, 401);
    let hashless = User { id: 4, email: text("a@x.com"), password: None, name: text("A") };
    assert_eq!(login_found(&auth, &body, Ok(Some(hashless))).code, 401);
    let answer = login_found_at(&auth, &body, Ok(Some(stored(4, "a@x.com", &hash, "A"))), 1_000);
    assert_eq!(answer.code, 200);
    let claims = auth.read_claims(&token_of(&answer)).unwrap();
    assert_eq!((claims.sub, claims.exp), (4, 87_400));
    let late = login_found_at(&auth, &body, Ok(Some(stored(4, "a@x.com", &hash, "A"))), -90_000);
    assert_eq!(late, rejected(ErrorKind::Internal, 500, "Server error"));
}

#[test]
fn register_decisions_follow_the_stores() {
    let auth = engine();
    let pending = register_begin(&auth, signup("a@x.com", "pw", "A")).unwrap();
    assert_eq!(pending.email, "a@x.com");
    assert_eq!(pending.name, "A");
    assert!(auth.verify_password("pw", &pending.password));
    assert_eq!(
        register_begin(&auth, signup("a@x.com", "pw", "")),
        Err(rejected(ErrorKind::Validation, 400, "Password, email and name cannot be empty"))
    );
    assert_eq!(
        register_checked(pending.clone(), Ok(Some(stored(1, "a@x.com", "h", "A")))),
        Err(rejected(ErrorKind::Conflict, 400, "User is already registered"))
    );
    assert_eq!(register_checked(pending.clone(), Ok(None)), Ok(pending.clone()));
    assert_eq!(register_checked(pending.clone(), Err(down())), Ok(pending));
    assert_eq!(
        register_created(Ok(User { id: 8, email: text("a@x.com"), password: None, name: text("A") })),
        accepted(201, "User registered successfully", Some(Payload::UserId(8)))
    );
    assert_eq!(
        register_created(Err(down())),
        rejected(ErrorKind::Internal, 500, "Server error: connection refused")
    );
}

#[test]
fn forgot_password_issues_and_mails_a_code() {
    let auth = engine();
    let mut users = UserTable::new();
    let mut codes = CodeTable::new();
    let mut outbox: Vec<Mail> = Vec::new();
    register(&mut users, &auth, signup("a@x.com", "pw", "A"));
    let answer =
        forgot_password(&users, &mut codes, &mut outbox, ForgotPassword { email: text("a@x.com") });
    assert_eq!(answer, accepted(200, "Email sent successfully", None));
    assert_eq!(outbox.len(), 1);
    assert_eq!(outbox[0].email, "a@x.com");
    assert_eq!(outbox[0].subject, "Forgot password");
    let code = outbox[0].message.strip_prefix("Your code is: ").unwrap().to_string();
    assert_eq!(code.len(), 4);
    assert_eq!(
        find_code_by_code(&codes, code.clone(), 1),
        Ok(Some(Code { id: 1, code, user_id: 1 }))
    );
}

#[test]
fn forgot_password_refuses_empty_and_unknown_email() {
    let users = UserTable::new();
    let mut codes = CodeTable::new();
    let mut outbox: Vec<Mail> = Vec::new();
    assert_eq!(
        forgot_password(&users, &mut codes, &mut outbox, ForgotPassword { email: text("") }),
        rejected(ErrorKind::Validation, 400, "Email cannot be empty")
    );
    assert_eq!(
        forgot_password(&users, &mut codes, &mut outbox, ForgotPassword { email: text("a@x.com") }),
        rejected(ErrorKind::NotFound, 404, "User not found")
    );
    assert!(outbox.is_empty());
}

#[test]
fn forgot_password_decisions_follow_the_lookup() {
    assert_eq!(forgot_password_check(&ForgotPassword { email: text("a@x.com") }), None);
    assert_eq!(
        forgot_password_check(&ForgotPassword { email: text("") }),
        Some(rejected(ErrorKind::Validation, 400, "Email cannot be empty"))
    );
    let (user_id, code) = forgot_password_found(Ok(Some(stored(6, "a@x.com", "h", "A")))).unwrap();
    assert_eq!(user_id, 6);
    let n: u32 = code.parse().unwrap();
    assert!(1000 <= n && n < 9999);
    assert_eq!(
        forgot_password_found(Ok(None)),
        Err(rejected(ErrorKind::NotFound, 404, "User not found"))
    );
    assert_eq!(
        forgot_password_found(Err(down())),
        Err(rejected(ErrorKind::Internal, 500, "Server error: connection refused"))
    );
    assert_eq!(forgot_password_sent(), accepted(200, "Email sent successfully", None));
}

#[test]
fn reset_code_mail_names_the_code() {
    let mail = Mail::reset_code(&text("a@x.com"), &text("4321"));
    assert_eq!(
        mail,
        Mail {
            email: text("a@x.com"),
            subject: text("Forgot password"),
            message: text("Your code is: 4321"),
        }
    );
    let mut outbox: Vec<Mail> = Vec::new();
    send_email(&mut outbox, text("b@x.com"), text("s"), text("m"));
    send_email(&mut outbox, mail.email.clone(), mail.subject.clone(), mail.message.clone());
    assert_eq!(outbox.len(), 2);
    assert_eq!(outbox[1], mail);
}

#[test]
fn reset_password_scenario() {
    let auth = engine();
    let mut users = UserTable::new();
    let mut codes = CodeTable::new();
    let mut outbox: Vec<Mail> = Vec::new();
    register(&mut users, &auth, signup("a@x.com", "pw", "A"));
    forgot_password(&users, &mut codes, &mut outbox, ForgotPassword { email: text("a@x.com") });
    let code = outbox[0].message.strip_prefix("Your code is: ").unwrap().to_string();
    let answer = reset_password(
        &mut users,
        &mut codes,
        &auth,
        ResetPassword { email: text("a@x.com"), code: code.clone(), new_password: text("newpw") },
    );
    assert_eq!(answer, accepted(200, "Password reset successfully", None));
    assert_eq!(login(&users, &auth, credentials("a@x.com", "pw")).code, 401);
    assert_eq!(login(&users, &auth, credentials("a@x.com", "newpw")).code, 200);
    let again = reset_password(
        &mut users,
        &mut codes,
        &auth,
        ResetPassword { email: text("a@x.com"), code, new_password: text("third") },
    );
    assert_eq!(again, rejected(ErrorKind::NotFound, 404, "Code not found"));
    assert_eq!(login(&users, &auth, credentials("a@x.com", "newpw")).code, 200);
}

#[test]
fn reset_with_wrong_code_changes_nothing() {
    let auth = engine();
    let mut users = UserTable::new();
    let mut codes = CodeTable::new();
    let mut outbox: Vec<Mail> = Vec::new();
    register(&mut users, &auth, signup("a@x.com", "pw", "A"));
    register(&mut users, &auth, signup("b@x.com", "pw", "B"));
    forgot_password(&users, &mut codes, &mut outbox, ForgotPassword { email: text("b@x.com") });
    let code_of_b = outbox[0].message.strip_prefix("Your code is: ").unwrap().to_string();
    let before = find_user_by_email(&users, text("a@x.com")).unwrap().unwrap();
    let attempt = |users: &mut UserTable, codes: &mut CodeTable, code: &str| {
        reset_password(
            users,
            codes,
            &auth,
            ResetPassword { email: text("a@x.com"), code: text(code), new_password: text("hack") },
        )
    };
    let expected = rejected(ErrorKind::NotFound, 404, "Code not found");
    assert_eq!(attempt(&mut users, &mut codes, "0000"), expected);
    assert_eq!(attempt(&mut users, &mut codes, &code_of_b), expected);
    assert_eq!(find_user_by_email(&users, text("a@x.com")).unwrap().unwrap(), before);
    assert!(find_code_by_code(&codes, code_of_b, 2).unwrap().is_some());
}

#[test]
fn reset_password_refuses_empty_fields_and_unknown_email() {
    let auth = engine();
    let mut users = UserTable::new();
    let mut codes = CodeTable::new();
    let body = |email: &str, code: &str, password: &str| ResetPassword {
        email: text(email),
        code: text(code),
        new_password: text(password),
    };
    let empty = rejected(ErrorKind::Validation, 400, "Email, code and password cannot be empty");
    assert_eq!(reset_password(&mut users, &mut codes, &auth, body("", "1", "p")), empty);
    assert_eq!(reset_password(&mut users, &mut codes, &auth, body("a@x.com", "", "p")), empty);
    assert_eq!(reset_password(&mut users, &mut codes, &auth, body("a@x.com", "1", "")), empty);
    assert_eq!(
        reset_password(&mut users, &mut codes, &auth, body("a@x.com", "1", "p")),
        rejected(ErrorKind::NotFound, 404, "User not found")
    );
}

#[test]
fn reset_password_decisions_follow_the_stores() {
    let auth = engine();
    let body = ResetPassword { email: text("a@x.com"), code: text("1234"), new_password: text("n") };
    assert_eq!(reset_password_check(&body), None);
    let user = stored(2, "a@x.com", "h", "A");
    assert_eq!(reset_password_user(Ok(Some(user.clone()))), Ok(user.clone()));
    assert_eq!(
        reset_password_user(Ok(None)),
        Err(rejected(ErrorKind::NotFound, 404, "User not found"))
    );
    assert_eq!(
        reset_password_user(Err(down())),
        Err(rejected(ErrorKind::Internal, 500, "Server error: connection refused"))
    );
    let code = Code { id: 1, code: text("1234"), user_id: 2 };
    let hash = reset_password_code(&auth, &body, Ok(Some(code))).unwrap();
    assert!(auth.verify_password("n", &hash));
    assert_eq!(
        reset_password_code(&auth, &body, Ok(None)),
        Err(rejected(ErrorKind::NotFound, 404, "Code not found"))
    );
    assert_eq!(
        reset_password_code(&auth, &body, Err(down())),
        Err(rejected(ErrorKind::Internal, 500, "Server error: connection refused"))
    );
    assert_eq!(reset_password_done(Ok(user)), accepted(200, "Password reset successfully", None));
    assert_eq!(
        reset_password_done(Err(down())),
        rejected(ErrorKind::Internal, 500, "Server error: connection refused")
    );
}

#[test]
fn get_user_scenario() {
    let auth = engine();
    let mut users = UserTable::new();
    assert_eq!(register(&mut users, &auth, signup("a@x.com", "pw", "A")).code, 201);
    let token = token_of(&login(&users, &auth, credentials("a@x.com", "pw")));
    let header = bearer(&token);
    let own = get_user(&users, &auth, 1, Some(&header));
    let record = User { id: 1, email: text("a@x.com"), password: None, name: text("A") };
    assert_eq!(own, accepted(200, "User fetched successfully", Some(Payload::User(record))));
    let forbidden = rejected(ErrorKind::Forbidden, 403, "Forbidden");
    assert_eq!(get_user(&users, &auth, 2, Some(&header)), forbidden);
    assert_eq!(register(&mut users, &auth, signup("b@x.com", "pw", "B")).code, 201);
    assert_eq!(get_user(&users, &auth, 2, Some(&header)), forbidden);
    assert_eq!(get_user(&users, &auth, -1, Some(&header)), forbidden);
    let anonymous = get_user(&users, &auth, 1, None);
    assert_eq!(anonymous, rejected(ErrorKind::Unauthorized, 401, "Unauthorized"));
}

#[test]
fn get_user_of_a_caller_without_a_record_is_not_found() {
    let auth = engine();
    let mut users = UserTable::new();
    register(&mut users, &auth, signup("a@x.com", "pw", "A"));
    let stranger = bearer(&auth.generate_jwt(9).unwrap());
    assert_eq!(
        get_user(&users, &auth, 9, Some(&stranger)),
        rejected(ErrorKind::NotFound, 404, "User not found")
    );
    assert_eq!(
        get_user(&users, &auth, 1, Some(&stranger)),
        rejected(ErrorKind::Forbidden, 403, "Forbidden")
    );
}

#[test]
fn get_user_decisions_follow_verdict_and_lookup() {
    let caller = AuthVerifyResponse { authorized: true, user_id: Some(2) };
    assert_eq!(authorized_caller(&caller), Ok(2));
    let unauthorized = rejected(ErrorKind::Unauthorized, 401, "Unauthorized");
    let forbidden = rejected(ErrorKind::Forbidden, 403, "Forbidden");
    let refused = AuthVerifyResponse { authorized: false, user_id: None };
    let odd = AuthVerifyResponse { authorized: false, user_id: Some(2) };
    let nameless = AuthVerifyResponse { authorized: true, user_id: None };
    assert_eq!(authorized_caller(&refused), Err(unauthorized.clone()));
    assert_eq!(authorized_caller(&odd), Err(unauthorized.clone()));
    assert_eq!(authorized_caller(&nameless), Err(unauthorized.clone()));
    assert_eq!(get_user_check(&caller, 2), None);
    assert_eq!(get_user_check(&caller, 3), Some(forbidden.clone()));
    assert_eq!(get_user_check(&refused, 2), Some(unauthorized.clone()));
    assert_eq!(get_user_check(&odd, 2), Some(unauthorized.clone()));
    let own = stored(2, "a@x.com", "h", "A");
    assert_eq!(get_user_found(&refused, 2, Ok(Some(own.clone()))), unauthorized);
    assert_eq!(
        get_user_found(&caller, 2, Ok(Some(own))),
        accepted(
            200,
            "User fetched successfully",
            Some(Payload::User(User {
                id: 2,
                email: text("a@x.com"),
                password: None,
                name: text("A")
            }))
        )
    );
    assert_eq!(
        get_user_found(&caller, 2, Ok(None)),
        rejected(ErrorKind::NotFound, 404, "User not found")
    );
    assert_eq!(
        get_user_found(&caller, 2, Err(down())),
        rejected(ErrorKind::Internal, 500, "Internal server error: connection refused")
    );
    assert_eq!(get_user_found(&caller, 3, Ok(None)), forbidden);
    assert_eq!(get_user_found(&caller, 3, Err(down())), forbidden);
    assert_eq!(get_user_found(&caller, 3, Ok(Some(stored(3, "b@x.com", "h", "B")))), forbidden);
    assert_eq!(get_user_found(&caller, 2, Ok(Some(stored(3, "b@x.com", "h", "B")))), forbidden);
}

#[test]
fn file_requests_need_a_registered_caller() {
    let auth = engine();
    let mut users = UserTable::new();
    let mut files = FileTable::new();
    let mut blobs = ByteStore::new();
    let action = FileAction::default();
    register(&mut users, &auth, signup("a@x.com", "pw", "A"));
    let part = || UploadPart { file_name: Some(text("a.txt")), content_type: None, bytes: vec![1] };
    let unauthorized = rejected(ErrorKind::Unauthorized, 401, "Unauthorized");
    assert_eq!(upload_file(&users, &mut files, &mut blobs, &auth, None, Some(part())), unauthorized);
    assert_eq!(
        get_files(&action, &users, &files, &auth, Some("Bearer x"), GetFiles { file_ids: vec![-1] }),
        unauthorized
    );
    assert_eq!(delete_file(&action, &users, &mut files, &mut blobs, &auth, Some(""), 1), unauthorized);
    let stranger = bearer(&auth.generate_jwt(99).unwrap());
    let unknown = rejected(ErrorKind::Unauthorized, 401, "User not found");
    assert_eq!(
        upload_file(&users, &mut files, &mut blobs, &auth, Some(&stranger), Some(part())),
        unknown
    );
    assert_eq!(
        get_files(&action, &users, &files, &auth, Some(&stranger), GetFiles { file_ids: vec![] }),
        unknown
    );
    assert_eq!(delete_file(&action, &users, &mut files, &mut blobs, &auth, Some(&stranger), 1), unknown);
    assert!(files.select_by_ids(&[1]).is_empty());
    assert!(!blobs.holds(&text("uploads/a.txt")));
}

#[test]
fn file_scenario() {
    let auth = engine();
    let mut users = UserTable::new();
    let mut files = FileTable::new();
    let mut blobs = ByteStore::new();
    let action = FileAction::default();
    register(&mut users, &auth, signup("a@x.com", "pw", "A"));
    let header = bearer(&token_of(&login(&users, &auth, credentials("a@x.com", "pw"))));
    let part = UploadPart {
        file_name: Some(text("notes.md")),
        content_type: Some(text("text/markdown")),
        bytes: b"# notes".to_vec(),
    };
    let uploaded = upload_file(&users, &mut files, &mut blobs, &auth, Some(&header), Some(part));
    assert_eq!(uploaded, accepted(200, "File uploaded", Some(Payload::FileId(1))));
    let listed = get_files(&action, &users, &files, &auth, Some(&header), GetFiles { file_ids: vec![-1] });
    assert_eq!(listed.code, 200);
    assert_eq!(listed.message, Some(text("Files found")));
    match &listed.data {
        Some(Payload::Files(rows)) => {
            assert_eq!(rows.len(), 1);
            assert_eq!(rows[0].file_name, "notes.md");
            assert_eq!(rows[0].file_size, 7);
            assert_eq!(rows[0].user_id, 1);
        },
        _ => panic!("a listing carries rows"),
    }
    let none = upload_file(&users, &mut files, &mut blobs, &auth, Some(&header), None);
    assert_eq!(none, rejected(ErrorKind::Validation, 400, "No file uploaded"));
    let missing = delete_file(&action, &users, &mut files, &mut blobs, &auth, Some(&header), 5);
    assert_eq!(missing, rejected(ErrorKind::NotFound, 400, "File not found"));
    assert!(blobs.holds(&text("uploads/notes.md")));
    let deleted = delete_file(&action, &users, &mut files, &mut blobs, &auth, Some(&header), 1);
    assert_eq!(
        deleted,
        accepted(200, "File deleted", Some(Payload::Message(text("File deleted successfully"))))
    );
    let empty = get_files(&action, &users, &files, &auth, Some(&header), GetFiles { file_ids: vec![] });
    assert_eq!(empty, rejected(ErrorKind::NotFound, 400, "Files not found"));
}

#[test]
fn file_decisions_follow_the_engine() {
    assert_eq!(caller_checked(Ok(Some(stored(1, "a@x.com", "h", "A")))), None);
    let unknown = Some(rejected(ErrorKind::Unauthorized, 401, "User not found"));
    assert_eq!(caller_checked(Ok(None)), unknown);
    assert_eq!(caller_checked(Err(down())), unknown);
    let soft = FileResponse {
        data: Some(Payload::Files(vec![])),
        error_message: text("Files not found"),
        is_error: true,
        error: Some(FileError::List(ListError::NoneFound)),
    };
    assert_eq!(file_answer(soft, "Files found"), rejected(ErrorKind::NotFound, 400, "Files not found"));
    let failed = FileResponse {
        data: None,
        error_message: text("Error fetching files: down"),
        is_error: true,
        error: Some(FileError::List(ListError::QueryFailed)),
    };
    assert_eq!(
        file_answer(failed, "Files found"),
        rejected(ErrorKind::Internal, 400, "Error fetching files: down")
    );
    let done = FileResponse::done(Payload::FileId(4));
    assert_eq!(file_answer(done, "File uploaded"), accepted(200, "File uploaded", Some(Payload::FileId(4))));
}

#[test]
fn failure_kinds_have_their_status() {
    assert_eq!(ErrorKind::Validation.status(), 400);
    assert_eq!(ErrorKind::Unauthorized.status(), 401);
    assert_eq!(ErrorKind::Forbidden.status(), 403);
    assert_eq!(ErrorKind::NotFound.status(), 404);
    assert_eq!(ErrorKind::Conflict.status(), 400);
    assert_eq!(ErrorKind::Internal.status(), 500);
}

#[test]
fn files_of_others_are_out_of_reach_by_default() {
    let auth = engine();
    let mut users = UserTable::new();
    let mut files = FileTable::new();
    let mut blobs = ByteStore::new();
    register(&mut users, &auth, signup("a@x.com", "pw", "A"));
    register(&mut users, &auth, signup("b@x.com", "pw", "B"));
    let a = bearer(&token_of(&login(&users, &auth, credentials("a@x.com", "pw"))));
    let b = bearer(&token_of(&login(&users, &auth, credentials("b@x.com", "pw"))));
    let part = UploadPart { file_name: Some(text("a.txt")), content_type: None, bytes: vec![1] };
    upload_file(&users, &mut files, &mut blobs, &auth, Some(&a), Some(part));
    let own = FileAction::default();
    let open = FileAction { owner_filtered: false };
    let ids = || GetFiles { file_ids: vec![1] };
    let not_found = rejected(ErrorKind::NotFound, 400, "Files not found");
    assert_eq!(get_files(&own, &users, &files, &auth, Some(&b), ids()), not_found);
    assert_eq!(get_files(&own, &users, &files, &auth, Some(&a), ids()).code, 200);
    assert_eq!(get_files(&open, &users, &files, &auth, Some(&b), ids()).code, 200);
    assert_eq!(
        delete_file(&own, &users, &mut files, &mut blobs, &auth, Some(&b), 1),
        rejected(ErrorKind::NotFound, 400, "File not found")
    );
    assert!(files.select(1).is_some());
    assert_eq!(delete_file(&open, &users, &mut files, &mut blobs, &auth, Some(&b), 1).code, 200);
    assert_eq!(files.select(1), None);
}

#[test]
fn login_after_registration_is_never_refused() {
    let auth = engine();
    let mut users = UserTable::new();
    for (i, email) in ["a@x.com", "b@x.com", "c@x.com"].iter().enumerate() {
        let id = i as i32 + 1;
        assert_eq!(register(&mut users, &auth, signup(email, "pw", "N")).code, 201);
        let answer = login(&users, &auth, credentials(email, "pw"));
        assert_eq!(answer.code, 200);
        assert_eq!(answer.error, None);
        assert_eq!(auth.verify_jwt(&token_of(&answer)), Ok(id));
    }
}

#[test]
fn stored_hashes_record_the_work_factor() {
    let auth = engine();
    let mut users = UserTable::new();
    let mut codes = CodeTable::new();
    let mut outbox: Vec<Mail> = Vec::new();
    register(&mut users, &auth, signup("a@x.com", "pw", "A"));
    let first = find_user_by_email(&users, text("a@x.com")).unwrap().unwrap().password.unwrap();
    assert_eq!(first.len(), 60);
    assert!(first.starts_with("$2b$10$"));
    forgot_password(&users, &mut codes, &mut outbox, ForgotPassword { email: text("a@x.com") });
    let code = outbox[0].message.strip_prefix("Your code is: ").unwrap().to_string();
    reset_password(
        &mut users,
        &mut codes,
        &auth,
        ResetPassword { email: text("a@x.com"), code, new_password: text("newpw") },
    );
    let second = find_user_by_email(&users, text("a@x.com")).unwrap().unwrap().password.unwrap();
    assert_ne!(second, first);
    assert!(second.starts_with("$2b$10$"));
}
