use rpts::calendar::{Date, UtcDateTime};
use rpts::grpc::auth::interceptor;
use rpts::grpc::data::{to_map, try_to_map, RawUser, Repository, RepositoryError};
use rpts::grpc::proto::{HiRequest, HiResponse, Timestamp, User, UserRequest};
use rpts::grpc::service::{user_response, Rpts01Service};
use rpts::grpc::status::{Code, Status};
use rpts::identifier::UserId;
use serde_json::Value;
use std::collections::HashMap;

/// A repository that knows one user, `my_name`.
struct StubRepo;

fn my_user() -> User {
    User {
        id: "01234567-89ab-cdef-0123-456789abcdef".to_string(),
        name: "my_name".to_string(),
        birth_date: None,
        created_at: None,
        updated_at: None,
        custom_data: vec![("random".to_string(), 78900)],
    }
}

impl Repository for StubRepo {
    fn get_user(&self, name: &str) -> Result<User, RepositoryError> {
        if name == "my_name" {
            Ok(my_user())
        } else {
            Err(RepositoryError { detail: "RowNotFound".to_string() })
        }
    }
}

fn json(text: &str) -> Value {
    serde_json::from_str(text).unwrap()
}

// the greeting

#[test]
fn say_hi_greets_rob() {
    let svc = Rpts01Service { repository: StubRepo };
    let response = svc.say_hi(HiRequest { hello: "Rob".to_string() });

    assert_eq!(response, Ok(HiResponse { message: "Hello Rob! How are you?".to_string() }));
}

#[test]
fn say_hi_takes_any_text() {
    let svc = Rpts01Service { repository: StubRepo };

    assert_eq!(
        svc.say_hi(HiRequest { hello: String::new() }).unwrap().message,
        "Hello ! How are you?"
    );
    assert_eq!(
        svc.say_hi(HiRequest { hello: "{} \u{e9}\u{4e16}".to_string() }).unwrap().message,
        "Hello {} \u{e9}\u{4e16}! How are you?"
    );
}

// the user by name

#[test]
fn get_user_returns_the_user_of_the_repository() {
    let svc = Rpts01Service { repository: StubRepo };
    let response = svc.get_user(UserRequest { name: "my_name".to_string() });

    assert_eq!(response, Ok(my_user()));
}

#[test]
fn get_user_maps_every_failure_to_not_found() {
    let svc = Rpts01Service { repository: StubRepo };
    let status = svc.get_user(UserRequest { name: "nobody".to_string() }).err().unwrap();

    assert_eq!(status.code, Code::NotFound);
    assert_eq!(status.message, "No user with name nobody exists. Error: RowNotFound");
}

// the token

#[test]
fn interceptor_passes_the_token() {
    assert_eq!(interceptor(Some("Bearer myjwttoken")), Ok(()));
}

#[test]
fn interceptor_rejects_everything_else() {
    let rejected =
        Err(Status { code: Code::Unauthenticated, message: "The token is invalid".to_string() });

    assert_eq!(interceptor(None), rejected);
    assert_eq!(interceptor(Some("")), rejected);
    assert_eq!(interceptor(Some("myjwttoken")), rejected);
    assert_eq!(interceptor(Some("Bearer other")), rejected);
    assert_eq!(interceptor(Some("bearer myjwttoken")), rejected);
    assert_eq!(interceptor(Some("Bearer myjwttoken ")), rejected);
    assert_eq!(interceptor(Some(" Bearer myjwttoken")), rejected);
}

#[test]
fn status_constructors_set_the_kind() {
    assert_eq!(
        Status::not_found("a".to_string()),
        Status { code: Code::NotFound, message: "a".to_string() }
    );
    assert_eq!(
        Status::unauthenticated("b".to_string()),
        Status { code: Code::Unauthenticated, message: "b".to_string() }
    );
}

// custom data

#[test]
fn to_map_gives_each_key_with_its_number() {
    let map = to_map(&json(r#"{"random": 78900, "answer": -42, "zero": 0}"#));
    let map: HashMap<String, i64> = map.into_iter().collect();

    assert_eq!(map.len(), 3);
    assert_eq!(map["random"], 78900);
    assert_eq!(map["answer"], -42);
    assert_eq!(map["zero"], 0);
}

#[test]
fn to_map_of_an_empty_object_is_empty() {
    assert_eq!(to_map(&json("{}")), vec![]);
    assert_eq!(try_to_map(&json("{}")), Some(vec![]));
}

#[test]
fn to_map_holds_the_whole_range_of_i64() {
    let map = to_map(&json(r#"{"max": 9223372036854775807, "min": -9223372036854775808}"#));
    let map: HashMap<String, i64> = map.into_iter().collect();

    assert_eq!(map["max"], i64::MAX);
    assert_eq!(map["min"], i64::MIN);
}

#[test]
fn to_map_holds_no_key_twice() {
    let map = to_map(&json(r#"{"a": 1, "b": 2, "a": 3, "c": 4, "b": 5}"#));
    let mut keys: Vec<&String> = map.iter().map(|entry| &entry.0).collect();
    keys.sort();
    keys.dedup();

    assert_eq!(map.len(), 3);
    assert_eq!(keys.len(), 3);
}

#[test]
fn try_to_map_refuses_what_is_no_object() {
    assert_eq!(try_to_map(&json("null")), None);
    assert_eq!(try_to_map(&json("true")), None);
    assert_eq!(try_to_map(&json("78900")), None);
    assert_eq!(try_to_map(&json(r#""random""#)), None);
    assert_eq!(try_to_map(&json("[1, 2]")), None);
    assert_eq!(try_to_map(&json("[]")), None);
}

#[test]
fn try_to_map_refuses_a_value_that_is_no_i64() {
    assert_eq!(try_to_map(&json(r#"{"a": 1, "b": 1.5}"#)), None);
    assert_eq!(try_to_map(&json(r#"{"a": 256.0}"#)), None);
    assert_eq!(try_to_map(&json(r#"{"a": 9223372036854775808}"#)), None);
    assert_eq!(try_to_map(&json(r#"{"a": "1"}"#)), None);
    assert_eq!(try_to_map(&json(r#"{"a": null}"#)), None);
    assert_eq!(try_to_map(&json(r#"{"a": true}"#)), None);
    assert_eq!(try_to_map(&json(r#"{"a": {"b": 1}}"#)), None);
    assert_eq!(try_to_map(&json(r#"{"a": [1]}"#)), None);
    assert_eq!(try_to_map(&json(r#"{"z": 1, "a": null}"#)), None);
}

#[test]
fn try_to_map_agrees_with_to_map() {
    let value = json(r#"{"random": 74444}"#);

    assert_eq!(try_to_map(&value), Some(vec![("random".to_string(), 74444)]));
    assert_eq!(to_map(&value), vec![("random".to_string(), 74444)]);
}

// rows

fn row(custom_data: &str) -> RawUser {
    RawUser {
        id: UserId::new(0x0123456789abcdef0123456789abcdef),
        name: "my_name".to_string(),
        birth_date: Some(Date::from_ymd(1977, 3, 10)),
        created_at: Some(UtcDateTime { seconds: 1_431_648_000, nanos: 123_456_789 }),
        updated_at: None,
        custom_data: json(custom_data),
    }
}

#[test]
fn a_row_becomes_a_message() {
    let user = User::from(row(r#"{"random": 78900}"#));

    assert_eq!(
        user,
        User {
            id: "01234567-89ab-cdef-0123-456789abcdef".to_string(),
            name: "my_name".to_string(),
            birth_date: Some(Timestamp { seconds: 226_800_000, nanos: 0 }),
            created_at: Some(Timestamp { seconds: 1_431_648_000, nanos: 0 }),
            updated_at: None,
            custom_data: vec![("random".to_string(), 78900)],
        }
    );
}

#[test]
fn a_row_without_times_becomes_a_message_without_times() {
    let mut raw_user = row("{}");
    raw_user.birth_date = None;
    raw_user.created_at = None;
    let user = User::from(raw_user);

    assert_eq!(user.birth_date, None);
    assert_eq!(user.created_at, None);
    assert_eq!(user.updated_at, None);
    assert_eq!(user.custom_data, vec![]);
}

#[test]
fn try_from_takes_rows_with_integers_only() {
    assert_eq!(
        User::try_from(row(r#"{"random": 78900}"#)),
        Some(User::from(row(r#"{"random": 78900}"#)))
    );
    assert_eq!(User::try_from(row(r#"{"random": "x"}"#)), None);
    assert_eq!(User::try_from(row("null")), None);
}

#[test]
fn user_response_tells_the_name_and_the_failure() {
    assert_eq!(user_response("my_name", Ok(my_user())), Ok(my_user()));
    assert_eq!(
        user_response("Rob", Err(RepositoryError { detail: "pool timed out".to_string() })),
        Err(Status {
            code: Code::NotFound,
            message: "No user with name Rob exists. Error: pool timed out".to_string(),
        })
    );
    assert_eq!(
        user_response("", Err(RepositoryError { detail: String::new() })).err().unwrap().message,
        "No user with name  exists. Error: "
    );
}
