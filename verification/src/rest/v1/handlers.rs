//! What the handlers answer: a response for a record, an error response for
//! a service error.

use crate::rest::models::User;
use crate::rest::v1::service::ServiceError;
use crate::rest::v1::repository::StorageError;
use vstd::prelude::*;
use vstd::string::*;

pub mod users;

verus! {

/// A response that carries a user record: the status, the `Location` header
/// and the record that the body holds.
#[derive(Debug, PartialEq, Clone)]
pub struct Reply {
    pub status: u16,
    pub location: String,
    pub body: User,
}

/// An error response: the status and the text of the body.
#[derive(Debug, PartialEq, Clone)]
pub struct HttpError {
    pub status: u16,
    pub message: String,
}

/// The status of the error response for a service error: 401 for a caller
/// who is not authorized, 404 where storage found no row, 500 for every
/// other storage failure.
pub open spec fn error_status(err: ServiceError) -> u16 {
    match err {
        ServiceError::Unauthorized => 401,
        ServiceError::DbError(StorageError::RowNotFound) => 404,
        ServiceError::DbError(StorageError::Other(_)) => 500,
    }
}

/// The body of the error response for a service error: the message of the
/// error, but for a storage failure other than a missing row, of which it
/// says `Database Error` and no more.
pub open spec fn error_message(err: ServiceError) -> Seq<char> {
    match err {
        ServiceError::Unauthorized => err.text(),
        ServiceError::DbError(StorageError::RowNotFound) => err.text(),
        ServiceError::DbError(StorageError::Other(_)) => "Database Error"@,
    }
}

/// The error response for a service error.
pub fn svc_err(err: &ServiceError) -> (response: HttpError)
    ensures
        response.status == error_status(*err),
        response.message@ == error_message(*err),
{
    match err {
        ServiceError::Unauthorized => HttpError { status: 401, message: err.to_string() },
        ServiceError::DbError(StorageError::RowNotFound) => HttpError {
            status: 404,
            message: err.to_string(),
        },
        ServiceError::DbError(_) => HttpError {
            status: 500,
            message: String::from_str("Database Error"),
        },
    }
}

/// Whether `result` is the handler's answer to what the service answered:
/// for a record, a response with the given status and `Location` and the
/// record as its body; for an error, the error response for it.
pub open spec fn is_response(
    result: Result<Reply, HttpError>,
    answer: Result<User, ServiceError>,
    status: u16,
    location: Seq<char>,
) -> bool {
    match answer {
        Ok(user) => {
            &&& result matches Ok(reply)
            &&& reply.status == status
            &&& reply.location@ == location
            &&& reply.body == user
        },
        Err(err) => {
            &&& result matches Err(response)
            &&& response.status == error_status(err)
            &&& response.message@ == error_message(err)
        },
    }
}

/// Handles the service response
pub fn svc_response(answer: Result<User, ServiceError>, status: u16, location: String) -> (result:
    Result<Reply, HttpError>)
    ensures
        is_response(result, answer, status, location@),
{
    match answer {
        Ok(user) => Ok(Reply { status, location, body: user }),
        Err(err) => Err(svc_err(&err)),
    }
}

/// A storage failure becomes 404 where no row was found and 500 otherwise,
/// and the body of a 500 is the same for every failure: it carries nothing
/// of what storage reported.
pub proof fn law_storage_failure_response(e: StorageError, other: StorageError)
    ensures
        error_status(ServiceError::DbError(e)) == (if e is RowNotFound {
            404u16
        } else {
            500u16
        }),
        e is RowNotFound ==> error_message(ServiceError::DbError(e)) == e.text(),
        !(e is RowNotFound) && !(other is RowNotFound) ==> error_message(ServiceError::DbError(e))
            == error_message(ServiceError::DbError(other)),
{
}

} // verus!
