use rpts::identifier::UserId;
use rpts::rest::models::{CustomData, User};
use rpts::rest::v1::handlers::users::{created_response, delete, get, patch, post, PATH};
use rpts::rest::v1::handlers::{svc_err, svc_response, HttpError, Reply};
use rpts::rest::v1::repository::StorageError;
use rpts::rest::v1::service::{Service, ServiceError, ServiceInjector};
use uuid::Uuid;

/// A service that answers every call in one fixed way: with a record of the
/// given name, or with the error that `fails` makes.
struct StubSvc {
    name: &'static str,
    fails: Option<fn() -> ServiceError>,
}

impl StubSvc {
    fn returning(name: &'static str) -> Self {
        StubSvc { name, fails: None }
    }

    fn failing(fails: fn() -> ServiceError) -> Self {
        StubSvc { name: "", fails: Some(fails) }
    }

    fn answer(&self, user: User) -> Result<User, ServiceError> {
        match self.fails {
            Some(fails) => Err(fails()),
            None => Ok(user),
        }
    }

    fn named(&self, id: &UserId) -> User {
        let mut user = User::default();
        user.id = Some(*id);
        user.name = self.name.to_string();
        user
    }
}

impl Service for StubSvc {
    fn get_user(&self, user_id: &UserId, _caller_id: Option<String>) -> Result<User, ServiceError> {
        self.answer(self.named(user_id))
    }

    fn update_user(
        &self,
        user_id: &UserId,
        _caller_id: Option<String>,
        custom_data: CustomData,
    ) -> Result<User, ServiceError> {
        let mut user = self.named(user_id);
        user.custom_data = Some(custom_data);
        self.answer(user)
    }

    fn create_user(&self, user: User) -> Result<User, ServiceError> {
        self.answer(user)
    }

    fn delete_user(&self, user_id: &UserId, _caller_id: Option<String>) -> Result<User, ServiceError> {
        self.answer(self.named(user_id))
    }
}

fn new_id() -> UserId {
    UserId::new(Uuid::new_v4().as_u128())
}

fn unauthorized() -> ServiceError {
    ServiceError::Unauthorized
}

fn row_not_found() -> ServiceError {
    ServiceError::DbError(StorageError::RowNotFound)
}

fn pool_timed_out() -> ServiceError {
    ServiceError::DbError(StorageError::Other(
        "pool timed out while waiting for an open connection".to_string(),
    ))
}

fn is_success(reply: &Reply) -> bool {
    (200..300).contains(&reply.status)
}

// get handler

#[test]
fn get_users_handler_works() {
    let user_id = new_id();
    let user_name = "my_name";
    let path = format!("/v1/users/{}", user_id.to_string());

    let svc = ServiceInjector::new(StubSvc::returning(user_name));
    let res = get(&user_id, &path, None, &svc).unwrap();

    assert_eq!(res.body.id.unwrap(), user_id);
    assert_eq!(res.body.name, user_name.to_string());
    assert_eq!(res.location, path);
    assert!(is_success(&res));
}

#[test]
fn get_users_handler_maps_err_to_unauthorized() {
    let svc = ServiceInjector::new(StubSvc::failing(unauthorized));
    let err = get(&new_id(), "/", None, &svc).err().unwrap();

    assert_eq!(err.message, unauthorized().to_string());
    assert_eq!(err.status, 401);
}

#[test]
fn get_users_handler_maps_err_to_not_found() {
    let svc = ServiceInjector::new(StubSvc::failing(row_not_found));
    let err = get(&new_id(), "/", None, &svc).err().unwrap();

    assert_eq!(err.message, row_not_found().to_string());
    assert_eq!(err.status, 404);
}

#[test]
fn get_users_handler_maps_err_to_internal() {
    let svc = ServiceInjector::new(StubSvc::failing(pool_timed_out));
    let err = get(&new_id(), "/", None, &svc).err().unwrap();

    assert_eq!(err.message, "Database Error");
    assert_eq!(err.status, 500);
}

// post handler

#[test]
fn post_users_handler_works() {
    let user_id = new_id();
    let user_name = "my_name";
    let path = format!("/v1/users/{}", user_id.to_string());

    let mut user = User::default();
    user.id = Some(user_id);
    user.name = user_name.to_string();

    let svc = ServiceInjector::new(StubSvc::returning(""));
    let res = post(user, "/v1/users", &svc).unwrap();

    assert_eq!(res.body.id.unwrap(), user_id);
    assert_eq!(res.body.name, user_name);
    assert_eq!(res.location, path);
    assert!(is_success(&res));
}

#[test]
fn post_users_handler_maps_err_to_unauthorized() {
    let svc = ServiceInjector::new(StubSvc::failing(unauthorized));
    let err = post(User::default(), "/", &svc).err().unwrap();

    assert_eq!(err.message, unauthorized().to_string());
    assert_eq!(err.status, 401);
}

#[test]
fn post_users_handler_maps_err_to_not_found() {
    let svc = ServiceInjector::new(StubSvc::failing(row_not_found));
    let err = post(User::default(), "/", &svc).err().unwrap();

    assert_eq!(err.message, row_not_found().to_string());
    assert_eq!(err.status, 404);
}

#[test]
fn post_users_handler_maps_err_to_internal() {
    let svc = ServiceInjector::new(StubSvc::failing(pool_timed_out));
    let err = post(User::default(), "/", &svc).err().unwrap();

    assert_eq!(err.message, "Database Error");
    assert_eq!(err.status, 500);
}

// patch handler

#[test]
fn patch_users_handler_works() {
    let user_id = new_id();
    let user_name = "my_name";
    let random = 74444;
    let path = format!("/v1/users/{}", user_id.to_string());

    let svc = ServiceInjector::new(StubSvc::returning(user_name));
    let res = patch(&user_id, CustomData { random }, &path, None, &svc).unwrap();

    assert_eq!(res.body.id.unwrap(), user_id);
    assert_eq!(res.body.name, user_name);
    assert_eq!(res.body.custom_data.unwrap().random, random);
    assert_eq!(res.location, path);
    assert!(is_success(&res));
}

#[test]
fn patch_users_handler_maps_err_to_unauthorized() {
    let svc = ServiceInjector::new(StubSvc::failing(unauthorized));
    let err = patch(&new_id(), CustomData::default(), "/", None, &svc).err().unwrap();

    assert_eq!(err.message, unauthorized().to_string());
    assert_eq!(err.status, 401);
}

#[test]
fn patch_users_handler_maps_err_to_not_found() {
    let svc = ServiceInjector::new(StubSvc::failing(row_not_found));
    let err = patch(&new_id(), CustomData::default(), "/", None, &svc).err().unwrap();

    assert_eq!(err.message, row_not_found().to_string());
    assert_eq!(err.status, 404);
}

#[test]
fn patch_users_handler_maps_err_to_internal() {
    let svc = ServiceInjector::new(StubSvc::failing(pool_timed_out));
    let err = patch(&new_id(), CustomData::default(), "/", None, &svc).err().unwrap();

    assert_eq!(err.message, "Database Error");
    assert_eq!(err.status, 500);
}

// delete handler

#[test]
fn delete_users_handler_works() {
    let user_id = new_id();
    let user_name = "my_name";
    let path = format!("/v1/users/{}", user_id.to_string());

    let svc = ServiceInjector::new(StubSvc::returning(user_name));
    let res = delete(&user_id, &path, None, &svc).unwrap();

    assert_eq!(res.body.id.unwrap(), user_id);
    assert_eq!(res.body.name, user_name);
    assert_eq!(res.location, path);
    assert!(is_success(&res));
}

#[test]
fn delete_users_handler_maps_err_to_unauthorized() {
    let svc = ServiceInjector::new(StubSvc::failing(unauthorized));
    let err = delete(&new_id(), "/", None, &svc).err().unwrap();

    assert_eq!(err.message, unauthorized().to_string());
    assert_eq!(err.status, 401);
}

#[test]
fn delete_users_handler_maps_err_to_not_found() {
    let svc = ServiceInjector::new(StubSvc::failing(row_not_found));
    let err = delete(&new_id(), "/", None, &svc).err().unwrap();

    assert_eq!(err.message, row_not_found().to_string());
    assert_eq!(err.status, 404);
}

#[test]
fn delete_users_handler_maps_err_to_internal() {
    let svc = ServiceInjector::new(StubSvc::failing(pool_timed_out));
    let err = delete(&new_id(), "/", None, &svc).err().unwrap();

    assert_eq!(err.message, "Database Error");
    assert_eq!(err.status, 500);
}

// the mapping by itself

#[test]
fn statuses_are_exact() {
    let user_id = new_id();
    let svc = StubSvc::returning("n");

    assert_eq!(get(&user_id, "/p", None, &svc).unwrap().status, 200);
    assert_eq!(patch(&user_id, CustomData { random: 1 }, "/p", None, &svc).unwrap().status, 200);
    assert_eq!(delete(&user_id, "/p", None, &svc).unwrap().status, 200);

    let mut user = User::default();
    user.id = Some(user_id);
    assert_eq!(post(user, "/p", &svc).unwrap().status, 201);
}

#[test]
fn internal_failures_carry_no_detail() {
    let secret = "password authentication failed for user \"admin\"";
    let one = svc_err(&ServiceError::DbError(StorageError::Other(secret.to_string())));
    let other = svc_err(&pool_timed_out());

    assert_eq!(one, HttpError { status: 500, message: "Database Error".to_string() });
    assert_eq!(one, other);
    assert!(!one.message.contains("password"));
}

#[test]
fn not_found_carries_the_storage_message() {
    let err = svc_err(&row_not_found());

    assert_eq!(err.status, 404);
    assert_eq!(
        err.message,
        "no rows returned by a query that expected to return at least one row"
    );
}

#[test]
fn unauthorized_carries_its_message() {
    let err = svc_err(&unauthorized());

    assert_eq!(err.status, 401);
    assert_eq!(err.message, "User is not authorized to access this resource");
}

#[test]
fn svc_response_keeps_status_location_and_record() {
    let mut user = User::default();
    user.name = "my_name".to_string();

    let reply = svc_response(Ok(user.clone()), 200, "/v1/users/1".to_string()).unwrap();
    assert_eq!(reply, Reply { status: 200, location: "/v1/users/1".to_string(), body: user });

    let err = svc_response(Err(unauthorized()), 200, "/v1/users/1".to_string()).err().unwrap();
    assert_eq!(err.status, 401);
}

#[test]
fn users_path_is_fixed() {
    assert_eq!(PATH, "/users");
}

#[test]
fn created_response_points_at_the_record() {
    let mut user = User::default();
    user.id = Some(UserId::new(0x0123456789abcdef0123456789abcdef));
    user.name = "my_name".to_string();

    let reply = created_response(Ok(user.clone()), "/v1/users").unwrap();

    assert_eq!(
        reply,
        Reply {
            status: 201,
            location: "/v1/users/01234567-89ab-cdef-0123-456789abcdef".to_string(),
            body: user,
        }
    );
}

#[test]
fn created_response_maps_errors_as_the_others_do() {
    assert_eq!(created_response(Err(unauthorized()), "/v1/users"), Err(svc_err(&unauthorized())));
    assert_eq!(created_response(Err(row_not_found()), "/v1/users").err().unwrap().status, 404);
    assert_eq!(
        created_response(Err(pool_timed_out()), "/v1/users"),
        Err(HttpError { status: 500, message: "Database Error".to_string() })
    );
}

#[test]
fn the_injector_answers_as_its_service() {
    let user_id = new_id();
    let direct = StubSvc::returning("my_name");
    let injector = ServiceInjector::new(StubSvc::returning("my_name"));

    assert_eq!(injector.get_user(&user_id, None), direct.get_user(&user_id, None));
    assert_eq!(
        injector.update_user(&user_id, None, CustomData { random: 7 }),
        direct.update_user(&user_id, None, CustomData { random: 7 })
    );
    assert_eq!(injector.create_user(User::default()), direct.create_user(User::default()));
    assert_eq!(injector.delete_user(&user_id, None), direct.delete_user(&user_id, None));

    let failing = ServiceInjector::new(StubSvc::failing(row_not_found));
    assert_eq!(failing.get_user(&user_id, None), Err(row_not_found()));
}
