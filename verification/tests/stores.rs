use filemanager::db::blobs::ByteStore;
use filemanager::db::codes::CodeTable;
use filemanager::db::files::{contains_id, FileTable};
use filemanager::db::users::UserTable;
use filemanager::models::auth::{Code, RegisterUser};
use filemanager::models::files::FileUploadRequest;
use filemanager::models::user::User;
use filemanager::repositories::auth_repository::{create_code, delete_code, find_code_by_code};
use filemanager::repositories::user_repository::{
    create_user, find_user_by_email, find_user_by_id, update_password,
};

fn text(s: &str) -> String {
    s.to_string()
}

fn record(email: &str, hash: &str, name: &str) -> RegisterUser {
    RegisterUser { email: text(email), password: text(hash), name: text(name) }
}

fn upload(name: &str, size: i32) -> FileUploadRequest {
    FileUploadRequest {
        file_name: text(name),
        file_path: format!("uploads/{}", name),
        file_size: size,
        file_content_type: text("text/plain"),
        file_type: text("txt"),
    }
}

#[test]
fn created_user_gets_the_next_id() {
    let mut users = UserTable::new();
    let a = create_user(&mut users, record("a@x.com", "h1", "A")).unwrap();
    let b = create_user(&mut users, record("b@x.com", "h2", "B")).unwrap();
    assert_eq!(a, User { id: 1, email: text("a@x.com"), password: None, name: text("A") });
    assert_eq!(b.id, 2);
}

#[test]
fn user_is_found_with_its_hash() {
    let mut users = UserTable::new();
    create_user(&mut users, record("a@x.com", "h1", "A")).unwrap();
    let expected = User { id: 1, email: text("a@x.com"), password: Some(text("h1")), name: text("A") };
    assert_eq!(find_user_by_email(&users, text("a@x.com")), Ok(Some(expected.clone())));
    assert_eq!(find_user_by_id(&users, 1), Ok(Some(expected)));
}

#[test]
fn unknown_user_is_not_found() {
    let mut users = UserTable::new();
    create_user(&mut users, record("a@x.com", "h1", "A")).unwrap();
    assert_eq!(find_user_by_email(&users, text("b@x.com")), Ok(None));
    assert_eq!(find_user_by_email(&users, text("A@x.com")), Ok(None));
    assert_eq!(find_user_by_id(&users, 2), Ok(None));
    assert_eq!(find_user_by_id(&users, -1), Ok(None));
}

#[test]
fn duplicate_email_is_refused() {
    let mut users = UserTable::new();
    create_user(&mut users, record("a@x.com", "h1", "A")).unwrap();
    let refused = create_user(&mut users, record("a@x.com", "h2", "B")).unwrap_err();
    assert_eq!(refused.message, "Error creating user: the email is taken");
    assert_eq!(find_user_by_email(&users, text("a@x.com")).unwrap().unwrap().password, Some(text("h1")));
    assert_eq!(create_user(&mut users, record("b@x.com", "h2", "B")).unwrap().id, 2);
}

#[test]
fn update_password_replaces_the_hash() {
    let mut users = UserTable::new();
    create_user(&mut users, record("a@x.com", "h1", "A")).unwrap();
    create_user(&mut users, record("b@x.com", "h2", "B")).unwrap();
    let updated = update_password(&mut users, 1, text("h3")).unwrap();
    assert_eq!(updated, User { id: 1, email: text("a@x.com"), password: Some(text("h3")), name: text("A") });
    assert_eq!(find_user_by_id(&users, 1).unwrap().unwrap().password, Some(text("h3")));
    assert_eq!(find_user_by_id(&users, 2).unwrap().unwrap().password, Some(text("h2")));
}

#[test]
fn update_password_of_unknown_user_fails() {
    let mut users = UserTable::new();
    create_user(&mut users, record("a@x.com", "h1", "A")).unwrap();
    let refused = update_password(&mut users, 7, text("h3")).unwrap_err();
    assert_eq!(refused.message, "Error updating password: no such user");
    assert_eq!(find_user_by_id(&users, 1).unwrap().unwrap().password, Some(text("h1")));
}

#[test]
fn second_code_replaces_the_first() {
    let mut codes = CodeTable::new();
    assert_eq!(create_code(&mut codes, &text("1111"), 5), Ok(true));
    assert_eq!(create_code(&mut codes, &text("2222"), 5), Ok(true));
    assert_eq!(find_code_by_code(&codes, text("1111"), 5), Ok(None));
    assert_eq!(
        find_code_by_code(&codes, text("2222"), 5),
        Ok(Some(Code { id: 1, code: text("2222"), user_id: 5 }))
    );
}

#[test]
fn codes_of_different_users_do_not_mix() {
    let mut codes = CodeTable::new();
    create_code(&mut codes, &text("1111"), 5).unwrap();
    create_code(&mut codes, &text("1111"), 6).unwrap();
    create_code(&mut codes, &text("3333"), 5).unwrap();
    assert_eq!(
        find_code_by_code(&codes, text("1111"), 6),
        Ok(Some(Code { id: 2, code: text("1111"), user_id: 6 }))
    );
    assert_eq!(find_code_by_code(&codes, text("1111"), 5), Ok(None));
    assert_eq!(find_code_by_code(&codes, text("3333"), 6), Ok(None));
}

#[test]
fn deleted_code_is_gone() {
    let mut codes = CodeTable::new();
    create_code(&mut codes, &text("1111"), 5).unwrap();
    create_code(&mut codes, &text("2222"), 6).unwrap();
    assert_eq!(delete_code(&mut codes, text("9999"), 5), Ok(()));
    assert!(find_code_by_code(&codes, text("1111"), 5).unwrap().is_some());
    assert_eq!(delete_code(&mut codes, text("1111"), 6), Ok(()));
    assert!(find_code_by_code(&codes, text("1111"), 5).unwrap().is_some());
    assert_eq!(delete_code(&mut codes, text("1111"), 5), Ok(()));
    assert_eq!(find_code_by_code(&codes, text("1111"), 5), Ok(None));
    assert!(find_code_by_code(&codes, text("2222"), 6).unwrap().is_some());
    assert_eq!(create_code(&mut codes, &text("4444"), 5), Ok(true));
    assert_eq!(find_code_by_code(&codes, text("4444"), 5).unwrap().unwrap().id, 3);
}

#[test]
fn file_rows_are_selected_by_owner_and_by_ids() {
    let mut files = FileTable::new();
    assert_eq!(files.insert(upload("a.txt", 1), 1), Some(1));
    assert_eq!(files.insert(upload("b.txt", 2), 2), Some(2));
    assert_eq!(files.insert(upload("c.txt", 3), 1), Some(3));
    let own: Vec<i32> = files.select_by_owner(1).iter().map(|f| f.id).collect();
    assert_eq!(own, vec![1, 3]);
    let listed: Vec<i32> = files.select_by_ids(&[3, 2, 9]).iter().map(|f| f.id).collect();
    assert_eq!(listed, vec![2, 3]);
    assert!(files.select_by_owner(7).is_empty());
    assert!(files.select_by_ids(&[]).is_empty());
    assert_eq!(files.select(2).unwrap().file_name, "b.txt");
    assert_eq!(files.select(4), None);
}

#[test]
fn deleted_file_row_is_gone_and_ids_are_not_reused() {
    let mut files = FileTable::new();
    files.insert(upload("a.txt", 1), 1);
    files.insert(upload("b.txt", 2), 1);
    assert!(files.delete(1));
    assert!(!files.delete(1));
    assert_eq!(files.select(1), None);
    assert_eq!(files.insert(upload("c.txt", 3), 1), Some(3));
    let own: Vec<i32> = files.select_by_owner(1).iter().map(|f| f.id).collect();
    assert_eq!(own, vec![2, 3]);
}

#[test]
fn contains_id_finds_members_only() {
    assert!(contains_id(&[1, 2, 3], 2));
    assert!(!contains_id(&[1, 2, 3], 4));
    assert!(!contains_id(&[], 0));
}

#[test]
fn byte_store_keeps_the_last_write() {
    let mut blobs = ByteStore::new();
    assert!(!blobs.holds(&text("uploads/a.txt")));
    blobs.write(text("uploads/a.txt"), vec![1, 2, 3]);
    blobs.write(text("uploads/b.txt"), vec![4]);
    assert_eq!(blobs.size_of(&text("uploads/a.txt")), Some(3));
    blobs.write(text("uploads/a.txt"), vec![9, 9]);
    assert_eq!(blobs.size_of(&text("uploads/a.txt")), Some(2));
    assert_eq!(blobs.read(&text("uploads/a.txt")), Some(vec![9, 9]));
    assert_eq!(blobs.size_of(&text("uploads/b.txt")), Some(1));
    assert_eq!(blobs.size_of(&text("uploads/c.txt")), None);
    assert_eq!(blobs.read(&text("uploads/c.txt")), None);
}

#[test]
fn byte_store_removes_what_it_holds() {
    let mut blobs = ByteStore::new();
    blobs.write(text("uploads/a.txt"), vec![1]);
    blobs.write(text("uploads/b.txt"), vec![2]);
    assert!(blobs.remove(&text("uploads/a.txt")));
    assert!(!blobs.remove(&text("uploads/a.txt")));
    assert!(!blobs.holds(&text("uploads/a.txt")));
    assert!(blobs.holds(&text("uploads/b.txt")));
}
