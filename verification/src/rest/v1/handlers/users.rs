//! The handlers of the users resource.

use crate::identifier::{hyphenated, UserId};
use crate::rest::models::{CustomData, User};
use crate::rest::v1::handlers::{is_response, svc_response, HttpError, Reply};
use crate::rest::v1::repository::{Repository, StorageError};
use crate::rest::v1::service::{
    is_authorized, service_answer, Rpts02Service, Service, ServiceError,
};
use vstd::prelude::*;
use vstd::string::*;

verus! {

/// The path of the users resource below the root of the API.
pub const PATH: &'static str = "/users";

/// `GET /users/{id}`: 200 with the record and the request's path as
/// `Location`, or the error response for what the service reported.
pub fn get<S: Service + ?Sized>(id: &UserId, path: &str, caller: Option<String>, svc: &S) -> (result:
    Result<Reply, HttpError>)
    ensures
        exists|answer: Result<User, ServiceError>|
            #[trigger] svc.answers_get(*id, caller.deep_view(), answer) && is_response(
                result,
                answer,
                200,
                path@,
            ),
{
    let answer = svc.get_user(id, caller);
    svc_response(answer, 200, String::from_str(path))
}

/// The `Location` of a created record: the path of the request, a slash and
/// the text form of the identifier that the record was given.
pub open spec fn created_location(path: Seq<char>, answer: Result<User, ServiceError>) -> Seq<char> {
    match answer {
        Ok(User { id: Some(id), .. }) => path + "/"@ + hyphenated(id.bits),
        _ => path,
    }
}

/// Whether every record that `svc` answers to `create_user(user)` has an
/// identifier.
pub open spec fn creates_identified<S: Service + ?Sized>(svc: &S, user: User) -> bool {
    forall|answer: Result<User, ServiceError>| #[trigger]
        svc.answers_create(user, answer) ==> (answer matches Ok(created) ==> created.id is Some)
}

/// The answer to `POST /users` for what the service answered: 201 with the
/// created record and its address as `Location`, or the error response. A
/// created record must have its identifier.
pub fn created_response(answer: Result<User, ServiceError>, path: &str) -> (result: Result<
    Reply,
    HttpError,
>)
    requires
        answer matches Ok(created) ==> created.id is Some,
    ensures
        is_response(result, answer, 201, created_location(path@, answer)),
{
    let location = match &answer {
        Ok(created) => {
            let id = created.id.unwrap();
            let mut location = String::from_str(path);
            location.append("/");
            location.append(id.to_string().as_str());
            location
        },
        Err(_) => String::from_str(path),
    };
    svc_response(answer, 201, location)
}

/// `POST /users`: 201 with the created record and its address as `Location`,
/// or the error response for what the service reported. The service must be
/// one whose created records have an identifier.
pub fn post<S: Service + ?Sized>(user: User, path: &str, svc: &S) -> (result: Result<
    Reply,
    HttpError,
>)
    requires
        creates_identified(svc, user),
    ensures
        exists|answer: Result<User, ServiceError>|
            #[trigger] svc.answers_create(user, answer) && is_response(
                result,
                answer,
                201,
                created_location(path@, answer),
            ),
{
    let answer = svc.create_user(user);
    created_response(answer, path)
}

/// `PATCH /users/{id}`: 200 with the updated record and the request's path
/// as `Location`, or the error response for what the service reported.
pub fn patch<S: Service + ?Sized>(
    id: &UserId,
    custom_data: CustomData,
    path: &str,
    caller: Option<String>,
    svc: &S,
) -> (result: Result<Reply, HttpError>)
    ensures
        exists|answer: Result<User, ServiceError>|
            #[trigger] svc.answers_update(*id, caller.deep_view(), custom_data, answer)
                && is_response(result, answer, 200, path@),
{
    let answer = svc.update_user(id, caller, custom_data);
    svc_response(answer, 200, String::from_str(path))
}

/// `DELETE /users/{id}`: 200 with the deleted record and the request's path
/// as `Location`, or the error response for what the service reported.
pub fn delete<S: Service + ?Sized>(id: &UserId, path: &str, caller: Option<String>, svc: &S) -> (result:
    Result<Reply, HttpError>)
    ensures
        exists|answer: Result<User, ServiceError>|
            #[trigger] svc.answers_delete(*id, caller.deep_view(), answer) && is_response(
                result,
                answer,
                200,
                path@,
            ),
{
    let answer = svc.delete_user(id, caller);
    svc_response(answer, 200, String::from_str(path))
}

/// What a handler answers to a request on an existing record, told by
/// whether the caller is authorized and by what storage answers:
/// 401 with the message of `Unauthorized` for a caller who is not authorized;
/// else 200 with the record and `location`; 404 with the description of the
/// failure where storage found no row; 500 with `Database Error`, and
/// nothing of the failure, for every other storage failure.
pub open spec fn is_guarded_response(
    result: Result<Reply, HttpError>,
    authorized: bool,
    stored: Result<User, StorageError>,
    location: Seq<char>,
) -> bool {
    if !authorized {
        &&& result matches Err(response)
        &&& response.status == 401
        &&& response.message@ == "User is not authorized to access this resource"@
    } else {
        match stored {
            Ok(user) => {
                &&& result matches Ok(reply)
                &&& reply.status == 200
                &&& reply.location@ == location
                &&& reply.body == user
            },
            Err(StorageError::RowNotFound) => {
                &&& result matches Err(response)
                &&& response.status == 404
                &&& response.message@
                    == "no rows returned by a query that expected to return at least one row"@
            },
            Err(StorageError::Other(_)) => {
                &&& result matches Err(response)
                &&& response.status == 500
                &&& response.message@ == "Database Error"@
            },
        }
    }
}

/// `get` over the service of a repository: every answer that its contract
/// admits is a guarded response, to `Unauthorized` whatever storage holds,
/// or to something that the repository answers to `get_user(id)`.
pub proof fn law_get_is_guarded<T: Repository + Send + Sync + 'static>(
    svc: Rpts02Service<T>,
    id: UserId,
    path: Seq<char>,
    caller: Option<Seq<char>>,
    result: Result<Reply, HttpError>,
)
    requires
        exists|answer: Result<User, ServiceError>|
            #[trigger] svc.answers_get(id, caller, answer) && is_response(
                result,
                answer,
                200,
                path,
            ),
    ensures
        !is_authorized(id, caller) ==> forall|stored: Result<User, StorageError>|
            is_guarded_response(result, false, stored, path),
        is_authorized(id, caller) ==> exists|stored: Result<User, StorageError>|
            #[trigger] svc.repository.answers_get(id, stored) && is_guarded_response(
                result,
                true,
                stored,
                path,
            ),
{
    let answer = choose|answer: Result<User, ServiceError>|
        #[trigger] svc.answers_get(id, caller, answer) && is_response(result, answer, 200, path);
    if is_authorized(id, caller) {
        let stored = choose|stored: Result<User, StorageError>|
            #[trigger] svc.repository.answers_get(id, stored) && answer == service_answer(stored);
        assert(is_guarded_response(result, true, stored, path));
    }
}

/// `patch` over the service of a repository: every answer that its contract
/// admits is a guarded response, to `Unauthorized` whatever storage holds,
/// or to something that the repository answers to
/// `update_user(id, custom_data)`.
pub proof fn law_patch_is_guarded<T: Repository + Send + Sync + 'static>(
    svc: Rpts02Service<T>,
    id: UserId,
    custom_data: CustomData,
    path: Seq<char>,
    caller: Option<Seq<char>>,
    result: Result<Reply, HttpError>,
)
    requires
        exists|answer: Result<User, ServiceError>|
            #[trigger] svc.answers_update(id, caller, custom_data, answer) && is_response(
                result,
                answer,
                200,
                path,
            ),
    ensures
        !is_authorized(id, caller) ==> forall|stored: Result<User, StorageError>|
            is_guarded_response(result, false, stored, path),
        is_authorized(id, caller) ==> exists|stored: Result<User, StorageError>|
            #[trigger] svc.repository.answers_update(id, custom_data, stored)
                && is_guarded_response(result, true, stored, path),
{
    let answer = choose|answer: Result<User, ServiceError>|
        #[trigger] svc.answers_update(id, caller, custom_data, answer) && is_response(
            result,
            answer,
            200,
            path,
        );
    if is_authorized(id, caller) {
        let stored = choose|stored: Result<User, StorageError>|
            #[trigger] svc.repository.answers_update(id, custom_data, stored) && answer
                == service_answer(stored);
        assert(is_guarded_response(result, true, stored, path));
    }
}

/// `delete` over the service of a repository: every answer that its contract
/// admits is a guarded response, to `Unauthorized` whatever storage holds,
/// or to something that the repository answers to `delete_user(id)`.
pub proof fn law_delete_is_guarded<T: Repository + Send + Sync + 'static>(
    svc: Rpts02Service<T>,
    id: UserId,
    path: Seq<char>,
    caller: Option<Seq<char>>,
    result: Result<Reply, HttpError>,
)
    requires
        exists|answer: Result<User, ServiceError>|
            #[trigger] svc.answers_delete(id, caller, answer) && is_response(
                result,
                answer,
                200,
                path,
            ),
    ensures
        !is_authorized(id, caller) ==> forall|stored: Result<User, StorageError>|
            is_guarded_response(result, false, stored, path),
        is_authorized(id, caller) ==> exists|stored: Result<User, StorageError>|
            #[trigger] svc.repository.answers_delete(id, stored) && is_guarded_response(
                result,
                true,
                stored,
                path,
            ),
{
    let answer = choose|answer: Result<User, ServiceError>|
        #[trigger] svc.answers_delete(id, caller, answer) && is_response(result, answer, 200, path);
    if is_authorized(id, caller) {
        let stored = choose|stored: Result<User, StorageError>|
            #[trigger] svc.repository.answers_delete(id, stored) && answer == service_answer(
                stored,
            );
        assert(is_guarded_response(result, true, stored, path));
    }
}

/// `post` over the service of a repository asks no one who the caller is:
/// every answer that its contract admits goes back to something that the
/// repository answers to `create_user(user)`. It is 201 with the stored
/// record and the address of that record; or 404 where storage found no
/// row; or 500 with `Database Error`; and never 401.
pub proof fn law_post_answers_for_storage<T: Repository + Send + Sync + 'static>(
    svc: Rpts02Service<T>,
    user: User,
    path: Seq<char>,
    result: Result<Reply, HttpError>,
)
    requires
        creates_identified(&svc, user),
        exists|answer: Result<User, ServiceError>|
            #[trigger] svc.answers_create(user, answer) && is_response(
                result,
                answer,
                201,
                created_location(path, answer),
            ),
    ensures
        exists|stored: Result<User, StorageError>|
            #[trigger] svc.repository.answers_create(user, stored) && match stored {
                Ok(created) => {
                    &&& created.id is Some
                    &&& result matches Ok(reply)
                    &&& reply.status == 201
                    &&& reply.location@ == path + "/"@ + hyphenated(created.id.unwrap().bits)
                    &&& reply.body == created
                },
                Err(StorageError::RowNotFound) => {
                    &&& result matches Err(response)
                    &&& response.status == 404
                },
                Err(StorageError::Other(_)) => {
                    &&& result matches Err(response)
                    &&& response.status == 500
                    &&& response.message@ == "Database Error"@
                },
            },
{
    let answer = choose|answer: Result<User, ServiceError>|
        #[trigger] svc.answers_create(user, answer) && is_response(
            result,
            answer,
            201,
            created_location(path, answer),
        );
    let stored = choose|stored: Result<User, StorageError>|
        #[trigger] svc.repository.answers_create(user, stored) && answer == service_answer(stored);
    assert(svc.repository.answers_create(user, stored));
}

} // verus!
