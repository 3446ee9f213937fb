use rust_web_starter::users::dto::{CreateUserDtoRequest, UpdateUserDtoRequest};
use rust_web_starter::users::users_repository::UserStore;

fn sample_request(email: &str) -> CreateUserDtoRequest {
    CreateUserDtoRequest {
        first_name: "Ada".to_owned(),
        last_name: "Lovelace".to_owned(),
        email: email.to_owned(),
        age: Some(36),
    }
}

const ID_A: &str = "0123456789abcdef01234567";
const ID_B: &str = "89abcdef0123456789abcdef";

#[test]
fn create_with_unused_email_succeeds() {
    let mut store = UserStore::new();
    let r = store.create(&sample_request("ada@example.com"), ID_A.to_owned());
    let resp = r.expect("creation with an unused email must succeed");
    assert!(!resp.id.is_empty());
    assert_eq!(resp.id, ID_A);
}

#[test]
fn create_with_taken_email_is_refused() {
    let mut store = UserStore::new();
    store
        .create(&sample_request("ada@example.com"), ID_A.to_owned())
        .expect("first creation succeeds");
    let second = store.create(&sample_request("ada@example.com"), ID_B.to_owned());
    assert!(second.is_none());
}

#[test]
fn get_returns_exact_fields_with_age() {
    let mut store = UserStore::new();
    store
        .create(&sample_request("ada@example.com"), ID_A.to_owned())
        .expect("creation succeeds");
    let d = store.get_by_id(ID_A).expect("created user is found");
    assert_eq!(d.id, ID_A);
    assert_eq!(d.first_name, "Ada");
    assert_eq!(d.last_name, "Lovelace");
    assert_eq!(d.email, "ada@example.com");
    assert_eq!(d.age, Some(36));
}

#[test]
fn get_returns_exact_fields_without_age() {
    let mut store = UserStore::new();
    let req = CreateUserDtoRequest {
        first_name: "Alan".to_owned(),
        last_name: "Turing".to_owned(),
        email: "alan@example.com".to_owned(),
        age: None,
    };
    store.create(&req, ID_B.to_owned()).expect("creation succeeds");
    let d = store.get_by_id(ID_B).expect("created user is found");
    assert_eq!(d.age, None);
}

#[test]
fn get_by_id_is_case_insensitive() {
    let mut store = UserStore::new();
    store
        .create(&sample_request("ada@example.com"), ID_A.to_owned())
        .expect("creation succeeds");
    let upper = ID_A.to_uppercase();
    let d = store.get_by_id(&upper).expect("upper-case spelling finds the user");
    assert_eq!(d.id, ID_A);
}

#[test]
fn update_changes_only_supplied_fields() {
    let mut store = UserStore::new();
    store
        .create(&sample_request("ada@example.com"), ID_A.to_owned())
        .expect("creation succeeds");
    let patch = UpdateUserDtoRequest {
        first_name: Some("X".to_owned()),
        last_name: None,
        email: None,
        age: None,
    };
    let d = store.update_by_id(ID_A, &patch).expect("update finds the user");
    assert_eq!(d.first_name, "X");
    assert_eq!(d.last_name, "Lovelace");
    assert_eq!(d.email, "ada@example.com");
    assert_eq!(d.age, Some(36));
    assert_eq!(d.id, ID_A);
    let again = store.get_by_id(ID_A).expect("still found");
    assert_eq!(again.first_name, "X");
    assert_eq!(again.last_name, "Lovelace");
}

#[test]
fn update_absent_id_returns_none() {
    let mut store = UserStore::new();
    let patch = UpdateUserDtoRequest {
        first_name: Some("X".to_owned()),
        last_name: None,
        email: None,
        age: None,
    };
    assert!(store.update_by_id(ID_A, &patch).is_none());
}

#[test]
fn delete_then_get_is_not_found_and_delete_is_idempotent() {
    let mut store = UserStore::new();
    store
        .create(&sample_request("ada@example.com"), ID_A.to_owned())
        .expect("creation succeeds");
    store.delete_by_id(ID_A);
    assert!(store.get_by_id(ID_A).is_none());
    store.delete_by_id(ID_A);
    assert!(store.get_by_id(ID_A).is_none());
}

#[test]
fn invalid_id_behaves_as_absent() {
    let mut store = UserStore::new();
    store
        .create(&sample_request("ada@example.com"), ID_A.to_owned())
        .expect("creation succeeds");
    assert!(store.get_by_id("not-an-id").is_none());
    assert!(store.get_by_id("0123").is_none());
    let mut other = UserStore::new();
    other
        .create(&sample_request("ada@example.com"), ID_A.to_owned())
        .expect("creation succeeds");
    other.delete_by_id("not-an-id");
    assert!(other.get_by_id(ID_A).is_some());
}

#[test]
fn get_all_lists_users_in_storage_order() {
    let mut store = UserStore::new();
    assert_eq!(store.get_all().len(), 0);
    store
        .create(&sample_request("ada@example.com"), ID_A.to_owned())
        .expect("creation succeeds");
    store
        .create(&sample_request("grace@example.com"), ID_B.to_owned())
        .expect("creation succeeds");
    let all = store.get_all();
    assert_eq!(all.len(), 2);
    assert_eq!(all[0].id, ID_A);
    assert_eq!(all[0].email, "ada@example.com");
    assert_eq!(all[1].id, ID_B);
    assert_eq!(all[1].email, "grace@example.com");
}
