//! The calls of the RPC service.

use crate::grpc::data::{Repository, RepositoryError};
use crate::grpc::proto::{HiRequest, HiResponse, User, UserRequest};
use crate::grpc::status::{Code, Status};
use vstd::prelude::*;
use vstd::string::*;

verus! {

/// The RPC service over a repository of users.
pub struct Rpts01Service<T: Repository> {
    pub repository: T,
}

/// The greeting for the given text.
pub open spec fn greeting(hello: Seq<char>) -> Seq<char> {
    "Hello "@ + hello + "! How are you?"@
}

/// The message that tells that no user has the given name, with the
/// description of the failure behind it.
pub open spec fn no_user_message(name: Seq<char>, detail: Seq<char>) -> Seq<char> {
    "No user with name "@ + name + " exists. Error: "@ + detail
}

/// Whether `response` is the service's answer to what the repository
/// answered: the user as it is, or `NotFound` for any failure.
pub open spec fn is_user_response(
    response: Result<User, Status>,
    name: Seq<char>,
    found: Result<User, RepositoryError>,
) -> bool {
    match found {
        Ok(user) => response == Ok::<User, Status>(user),
        Err(e) => {
            &&& response matches Err(status)
            &&& status.code == Code::NotFound
            &&& status.message@ == no_user_message(name, e.detail@)
        },
    }
}

/// The answer to the request for the user `name` for what the repository
/// answered: the user, or `NotFound` with a message that tells the name and
/// the failure.
pub fn user_response(name: &str, found: Result<User, RepositoryError>) -> (response: Result<
    User,
    Status,
>)
    ensures
        is_user_response(response, name@, found),
{
    match found {
        Ok(user) => Ok(user),
        Err(e) => {
            let mut message = String::from_str("No user with name ");
            message.append(name);
            message.append(" exists. Error: ");
            message.append(e.detail.as_str());
            Err(Status::not_found(message))
        },
    }
}

impl<T: Repository> Rpts01Service<T> {
    /// Greets the caller.
    pub fn say_hi(&self, request: HiRequest) -> (response: Result<HiResponse, Status>)
        ensures
            response matches Ok(hi) && hi.message@ == greeting(request.hello@),
    {
        let mut message = String::from_str("Hello ");
        message.append(request.hello.as_str());
        message.append("! How are you?");
        Ok(HiResponse { message })
    }

    /// Looks a user up by name. Whatever failure the repository reports, the
    /// call ends as `NotFound`.
    pub fn get_user(&self, request: UserRequest) -> (response: Result<User, Status>)
        ensures
            exists|found: Result<User, RepositoryError>|
                #[trigger] self.repository.answers_get(request.name@, found) && is_user_response(
                    response,
                    request.name@,
                    found,
                ),
    {
        let name = request.name;
        let found = self.repository.get_user(name.as_str());
        user_response(name.as_str(), found)
    }
}

} // verus!
