use rust_web_starter::shared::response::{
    http_bad_request, http_internal_server_error, http_no_content, http_ok, ResponsePayload,
};
use rust_web_starter::users::dto::{CreateUserDtoRequest, UpdateUserDtoRequest};
use rust_web_starter::users::users_controller;
use rust_web_starter::users::users_repository::UserStore;

fn sample_request(email: &str) -> CreateUserDtoRequest {
    CreateUserDtoRequest {
        first_name: "Ada".to_owned(),
        last_name: "Lovelace".to_owned(),
        email: email.to_owned(),
        age: None,
    }
}

const ID_A: &str = "0123456789abcdef01234567";
const ID_B: &str = "89abcdef0123456789abcdef";

#[test]
fn listing_zero_users_is_ok_and_empty() {
    let store = UserStore::new();
    let r = users_controller::get_all(&store);
    assert_eq!(r.status, 200);
    match r.body {
        ResponsePayload::Users(us) => assert!(us.is_empty()),
        _ => panic!("listing must answer with the users array"),
    }
}

#[test]
fn create_then_get_round_trip() {
    let mut store = UserStore::new();
    let created = users_controller::create(&mut store, &sample_request("ada@example.com"), ID_A.to_owned());
    assert_eq!(created.status, 200);
    match created.body {
        ResponsePayload::UserId(resp) => assert_eq!(resp.id, ID_A),
        _ => panic!("creation must answer with the identifier"),
    }
    let got = users_controller::get_by_id(&store, ID_A);
    assert_eq!(got.status, 200);
    match got.body {
        ResponsePayload::User(d) => {
            assert_eq!(d.id, ID_A);
            assert_eq!(d.first_name, "Ada");
            assert_eq!(d.email, "ada@example.com");
            assert_eq!(d.age, None);
        },
        _ => panic!("lookup must answer with the user"),
    }
}

#[test]
fn duplicate_email_answers_bad_request() {
    let mut store = UserStore::new();
    users_controller::create(&mut store, &sample_request("ada@example.com"), ID_A.to_owned());
    let second = users_controller::create(&mut store, &sample_request("ada@example.com"), ID_B.to_owned());
    assert_eq!(second.status, 400);
    match second.body {
        ResponsePayload::Error(e) => assert_eq!(e.message, "Already exists"),
        _ => panic!("a duplicate email must answer with an error envelope"),
    }
}

#[test]
fn absent_and_invalid_ids_answer_the_same_not_found_class() {
    let store = UserStore::new();
    let absent = users_controller::get_by_id(&store, ID_A);
    assert_eq!(absent.status, 400);
    match absent.body {
        ResponsePayload::Error(e) => {
            assert_eq!(e.message, format!("User not found for id {}", ID_A))
        },
        _ => panic!("an absent id must answer with an error envelope"),
    }
    let invalid = users_controller::get_by_id(&store, "zzz");
    assert_eq!(invalid.status, 400);
    match invalid.body {
        ResponsePayload::Error(e) => assert_eq!(e.message, "User not found for id zzz"),
        _ => panic!("an invalid id must answer with an error envelope"),
    }
}

#[test]
fn update_answers_updated_user_or_not_found() {
    let mut store = UserStore::new();
    users_controller::create(&mut store, &sample_request("ada@example.com"), ID_A.to_owned());
    let patch = UpdateUserDtoRequest {
        first_name: Some("X".to_owned()),
        last_name: None,
        email: None,
        age: Some(40),
    };
    let ok = users_controller::update_by_id(&mut store, ID_A, &patch);
    assert_eq!(ok.status, 200);
    match ok.body {
        ResponsePayload::User(d) => {
            assert_eq!(d.first_name, "X");
            assert_eq!(d.last_name, "Lovelace");
            assert_eq!(d.age, Some(40));
        },
        _ => panic!("an update that found the user answers with the user"),
    }
    let missing = users_controller::update_by_id(&mut store, ID_B, &patch);
    assert_eq!(missing.status, 400);
    match missing.body {
        ResponsePayload::Error(e) => {
            assert_eq!(e.message, format!("Generic error finding id {}", ID_B))
        },
        _ => panic!("an update that found nothing answers with an error envelope"),
    }
}

#[test]
fn delete_always_answers_no_content() {
    let mut store = UserStore::new();
    users_controller::create(&mut store, &sample_request("ada@example.com"), ID_A.to_owned());
    let first = users_controller::delete_by_id(&mut store, ID_A);
    assert_eq!(first.status, 204);
    assert!(matches!(first.body, ResponsePayload::Empty));
    let after = users_controller::get_by_id(&store, ID_A);
    assert_eq!(after.status, 400);
    let second = users_controller::delete_by_id(&mut store, ID_A);
    assert_eq!(second.status, 204);
    let invalid = users_controller::delete_by_id(&mut store, "zzz");
    assert_eq!(invalid.status, 204);
}

#[test]
fn response_helpers_carry_status_and_payload() {
    let ok = http_ok(ResponsePayload::Empty);
    assert_eq!(ok.status, 200);
    let none = http_no_content();
    assert_eq!(none.status, 204);
    assert!(matches!(none.body, ResponsePayload::Empty));
    let bad = http_bad_request("nope".to_owned());
    assert_eq!(bad.status, 400);
    match bad.body {
        ResponsePayload::Error(e) => assert_eq!(e.message, "nope"),
        _ => panic!("bad request carries the error envelope"),
    }
    let ise = http_internal_server_error("boom".to_owned());
    assert_eq!(ise.status, 500);
    match ise.body {
        ResponsePayload::Error(e) => assert_eq!(e.message, "boom"),
        _ => panic!("server error carries the error envelope"),
    }
}
