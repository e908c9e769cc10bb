//! The service layer: the authorization rule in front of the repository.

use crate::identifier::{hyphenated, law_text_form_names_one_identifier, UserId};
use crate::rest::models::{CustomData, User};
use crate::rest::v1::repository::{Repository, StorageError};
use vstd::prelude::*;
use vstd::std_specs::convert::FromSpecImpl;
use vstd::string::*;

verus! {

/// What the service reports in place of a record.
#[derive(Debug, PartialEq, Clone)]
pub enum ServiceError {
    /// The caller is not the owner of the record.
    Unauthorized,
    /// Storage failed.
    DbError(StorageError),
}

impl ServiceError {
    /// The message of the error: a fixed sentence for `Unauthorized`, the
    /// description of the storage failure for `DbError`.
    pub open spec fn text(self) -> Seq<char> {
        match self {
            ServiceError::Unauthorized => "User is not authorized to access this resource"@,
            ServiceError::DbError(e) => e.text(),
        }
    }

    /// The message of the error.
    pub fn to_string(&self) -> (text: String)
        ensures
            text@ == self.text(),
    {
        match self {
            ServiceError::Unauthorized => String::from_str(
                "User is not authorized to access this resource",
            ),
            ServiceError::DbError(e) => e.to_string(),
        }
    }
}

impl From<StorageError> for ServiceError {
    fn from(e: StorageError) -> (err: ServiceError) {
        ServiceError::DbError(e)
    }
}

impl FromSpecImpl<StorageError> for ServiceError {
    open spec fn obeys_from_spec() -> bool {
        true
    }

    open spec fn from_spec(e: StorageError) -> ServiceError {
        ServiceError::DbError(e)
    }
}

/// The authorization rule: a request on the record `user_id` may proceed if
/// it comes with no caller identity, or with one that is the text form of
/// `user_id`.
pub open spec fn is_authorized(user_id: UserId, caller_id: Option<Seq<char>>) -> bool {
    match caller_id {
        None => true,
        Some(caller) => caller == hyphenated(user_id.bits),
    }
}

/// Applies the authorization rule.
pub fn authorize(user_id: &UserId, caller_id: &Option<String>) -> (verdict: Result<
    (),
    ServiceError,
>)
    ensures
        verdict is Ok <==> is_authorized(*user_id, caller_id.deep_view()),
        verdict is Err ==> verdict == Err::<(), ServiceError>(ServiceError::Unauthorized),
{
    match caller_id {
        None => Ok(()),
        Some(caller) => {
            let owner = user_id.to_string();
            if owner == *caller {
                Ok(())
            } else {
                Err(ServiceError::Unauthorized)
            }
        },
    }
}

/// What the service answers when storage has answered `stored`: the record,
/// or the storage failure as a service error.
pub open spec fn service_answer(stored: Result<User, StorageError>) -> Result<User, ServiceError> {
    match stored {
        Ok(user) => Ok(user),
        Err(e) => Err(ServiceError::DbError(e)),
    }
}

/// Turns the answer of storage into the answer of the service.
pub fn into_service_answer(stored: Result<User, StorageError>) -> (answer: Result<
    User,
    ServiceError,
>)
    ensures
        answer == service_answer(stored),
{
    match stored {
        Ok(user) => Ok(user),
        Err(e) => Err(ServiceError::from(e)),
    }
}

/// The users service of the API. `caller_id` is the identity that the
/// transport found in the request, if it found one.
///
/// An implementation may say in the `answers_` functions what it promises of
/// its answers; the handlers hand these promises on. One that leaves them as
/// they are promises nothing.
pub trait Service: Send + Sync {
    /// Whether `answer` can be the answer to `get_user(user_id, caller_id)`.
    open spec fn answers_get(
        &self,
        user_id: UserId,
        caller_id: Option<Seq<char>>,
        answer: Result<User, ServiceError>,
    ) -> bool {
        true
    }

    /// Whether `answer` can be the answer to
    /// `update_user(user_id, caller_id, custom_data)`.
    open spec fn answers_update(
        &self,
        user_id: UserId,
        caller_id: Option<Seq<char>>,
        custom_data: CustomData,
        answer: Result<User, ServiceError>,
    ) -> bool {
        true
    }

    /// Whether `answer` can be the answer to `create_user(user)`.
    open spec fn answers_create(&self, user: User, answer: Result<User, ServiceError>) -> bool {
        true
    }

    /// Whether `answer` can be the answer to `delete_user(user_id, caller_id)`.
    open spec fn answers_delete(
        &self,
        user_id: UserId,
        caller_id: Option<Seq<char>>,
        answer: Result<User, ServiceError>,
    ) -> bool {
        true
    }

    /// Gets a user by id.
    fn get_user(&self, user_id: &UserId, caller_id: Option<String>) -> (answer: Result<
        User,
        ServiceError,
    >)
        ensures
            self.answers_get(*user_id, caller_id.deep_view(), answer),
    ;

    /// Replaces the custom data of a user.
    fn update_user(
        &self,
        user_id: &UserId,
        caller_id: Option<String>,
        custom_data: CustomData,
    ) -> (answer: Result<User, ServiceError>)
        ensures
            self.answers_update(*user_id, caller_id.deep_view(), custom_data, answer),
    ;

    /// Creates a new user.
    fn create_user(&self, user: User) -> (answer: Result<User, ServiceError>)
        ensures
            self.answers_create(user, answer),
    ;

    /// Deletes a user.
    fn delete_user(&self, user_id: &UserId, caller_id: Option<String>) -> (answer: Result<
        User,
        ServiceError,
    >)
        ensures
            self.answers_delete(*user_id, caller_id.deep_view(), answer),
    ;
}

/// Holds a service for the handlers and answers as that service does.
pub struct ServiceInjector<S: Service>(Box<S>);

impl<S: Service + 'static> ServiceInjector<S> {
    /// Builds a new ServiceInjector
    pub fn new(svc: S) -> (injector: Self)
        ensures
            injector.service() == svc,
    {
        Self(Box::new(svc))
    }
}

impl<S: Service> ServiceInjector<S> {
    /// The service that the injector holds.
    pub closed spec fn service(&self) -> S {
        *self.0
    }
}

impl<S: Service> Service for ServiceInjector<S> {
    /// The injector answers as the service that it holds.
    open spec fn answers_get(
        &self,
        user_id: UserId,
        caller_id: Option<Seq<char>>,
        answer: Result<User, ServiceError>,
    ) -> bool {
        self.service().answers_get(user_id, caller_id, answer)
    }

    /// The injector answers as the service that it holds.
    open spec fn answers_update(
        &self,
        user_id: UserId,
        caller_id: Option<Seq<char>>,
        custom_data: CustomData,
        answer: Result<User, ServiceError>,
    ) -> bool {
        self.service().answers_update(user_id, caller_id, custom_data, answer)
    }

    /// The injector answers as the service that it holds.
    open spec fn answers_create(&self, user: User, answer: Result<User, ServiceError>) -> bool {
        self.service().answers_create(user, answer)
    }

    /// The injector answers as the service that it holds.
    open spec fn answers_delete(
        &self,
        user_id: UserId,
        caller_id: Option<Seq<char>>,
        answer: Result<User, ServiceError>,
    ) -> bool {
        self.service().answers_delete(user_id, caller_id, answer)
    }

    fn get_user(&self, user_id: &UserId, caller_id: Option<String>) -> (answer: Result<
        User,
        ServiceError,
    >) {
        self.0.get_user(user_id, caller_id)
    }

    fn update_user(
        &self,
        user_id: &UserId,
        caller_id: Option<String>,
        custom_data: CustomData,
    ) -> (answer: Result<User, ServiceError>) {
        self.0.update_user(user_id, caller_id, custom_data)
    }

    fn create_user(&self, user: User) -> (answer: Result<User, ServiceError>) {
        self.0.create_user(user)
    }

    fn delete_user(&self, user_id: &UserId, caller_id: Option<String>) -> (answer: Result<
        User,
        ServiceError,
    >) {
        self.0.delete_user(user_id, caller_id)
    }
}

/// The service over a repository: it applies the authorization rule to
/// requests on an existing record and hands the rest to the repository.
pub struct Rpts02Service<T: Repository> {
    pub repository: T,
}

impl<T: Repository> Rpts02Service<T> {
    /// Builds a new Rpts02Service
    pub fn new(repository: T) -> (service: Self)
        ensures
            service.repository == repository,
    {
        Self { repository }
    }
}

impl<T: Repository + Send + Sync + 'static> Service for Rpts02Service<T> {
    /// An unauthorized caller gets `Unauthorized`; an authorized caller gets
    /// what the repository answered to `get_user(user_id)`.
    open spec fn answers_get(
        &self,
        user_id: UserId,
        caller_id: Option<Seq<char>>,
        answer: Result<User, ServiceError>,
    ) -> bool {
        if is_authorized(user_id, caller_id) {
            exists|found: Result<User, StorageError>|
                #[trigger] self.repository.answers_get(user_id, found) && answer == service_answer(
                    found,
                )
        } else {
            answer == Err::<User, ServiceError>(ServiceError::Unauthorized)
        }
    }

    /// An unauthorized caller gets `Unauthorized`; an authorized caller gets
    /// what the repository answered to `update_user(user_id, custom_data)`.
    open spec fn answers_update(
        &self,
        user_id: UserId,
        caller_id: Option<Seq<char>>,
        custom_data: CustomData,
        answer: Result<User, ServiceError>,
    ) -> bool {
        if is_authorized(user_id, caller_id) {
            exists|updated: Result<User, StorageError>|
                #[trigger] self.repository.answers_update(user_id, custom_data, updated) && answer
                    == service_answer(updated)
        } else {
            answer == Err::<User, ServiceError>(ServiceError::Unauthorized)
        }
    }

    /// Every caller gets what the repository answered to `create_user(user)`:
    /// a record that does not exist yet has no owner to compare with.
    open spec fn answers_create(&self, user: User, answer: Result<User, ServiceError>) -> bool {
        exists|created: Result<User, StorageError>|
            #[trigger] self.repository.answers_create(user, created) && answer == service_answer(
                created,
            )
    }

    /// An unauthorized caller gets `Unauthorized`; an authorized caller gets
    /// what the repository answered to `delete_user(user_id)`.
    open spec fn answers_delete(
        &self,
        user_id: UserId,
        caller_id: Option<Seq<char>>,
        answer: Result<User, ServiceError>,
    ) -> bool {
        if is_authorized(user_id, caller_id) {
            exists|deleted: Result<User, StorageError>|
                #[trigger] self.repository.answers_delete(user_id, deleted) && answer
                    == service_answer(deleted)
        } else {
            answer == Err::<User, ServiceError>(ServiceError::Unauthorized)
        }
    }

    fn get_user(&self, user_id: &UserId, caller_id: Option<String>) -> (answer: Result<
        User,
        ServiceError,
    >) {
        if authorize(user_id, &caller_id).is_err() {
            return Err(ServiceError::Unauthorized);
        }
        into_service_answer(self.repository.get_user(user_id))
    }

    fn update_user(
        &self,
        user_id: &UserId,
        caller_id: Option<String>,
        custom_data: CustomData,
    ) -> (answer: Result<User, ServiceError>) {
        if authorize(user_id, &caller_id).is_err() {
            return Err(ServiceError::Unauthorized);
        }
        into_service_answer(self.repository.update_user(user_id, custom_data))
    }

    fn create_user(&self, user: User) -> (answer: Result<User, ServiceError>) {
        into_service_answer(self.repository.create_user(user))
    }

    fn delete_user(&self, user_id: &UserId, caller_id: Option<String>) -> (answer: Result<
        User,
        ServiceError,
    >) {
        if authorize(user_id, &caller_id).is_err() {
            return Err(ServiceError::Unauthorized);
        }
        into_service_answer(self.repository.delete_user(user_id))
    }
}

/// The authorization rule comes before storage. Whatever the repository is
/// and whatever it would answer, a caller who is not authorized gets
/// `Unauthorized`, and nothing else, from `get_user`, `update_user` and
/// `delete_user`.
pub proof fn law_unauthorized_caller_is_refused<T: Repository + Send + Sync + 'static>(
    svc: Rpts02Service<T>,
    user_id: UserId,
    caller_id: Option<Seq<char>>,
    custom_data: CustomData,
    answer: Result<User, ServiceError>,
)
    requires
        !is_authorized(user_id, caller_id),
    ensures
        svc.answers_get(user_id, caller_id, answer) <==> answer == Err::<User, ServiceError>(
            ServiceError::Unauthorized,
        ),
        svc.answers_update(user_id, caller_id, custom_data, answer) <==> answer == Err::<
            User,
            ServiceError,
        >(ServiceError::Unauthorized),
        svc.answers_delete(user_id, caller_id, answer) <==> answer == Err::<User, ServiceError>(
            ServiceError::Unauthorized,
        ),
{
}

/// An authorized caller gets what the repository answered to the same
/// request: the record as it is, or the storage failure inside `DbError`.
/// Such an answer is never `Unauthorized`.
pub proof fn law_authorized_caller_gets_the_stored_answer<T: Repository + Send + Sync + 'static>(
    svc: Rpts02Service<T>,
    user_id: UserId,
    caller_id: Option<Seq<char>>,
    custom_data: CustomData,
    answer: Result<User, ServiceError>,
)
    requires
        is_authorized(user_id, caller_id),
    ensures
        svc.answers_get(user_id, caller_id, answer) <==> exists|stored: Result<User, StorageError>|
            #[trigger] svc.repository.answers_get(user_id, stored) && answer == service_answer(
                stored,
            ),
        svc.answers_update(user_id, caller_id, custom_data, answer) <==> exists|
            stored: Result<User, StorageError>,
        |
            #[trigger] svc.repository.answers_update(user_id, custom_data, stored) && answer
                == service_answer(stored),
        svc.answers_delete(user_id, caller_id, answer) <==> exists|
            stored: Result<User, StorageError>,
        |
            #[trigger] svc.repository.answers_delete(user_id, stored) && answer == service_answer(
                stored,
            ),
        forall|stored: Result<User, StorageError>| #[trigger]
            service_answer(stored) != Err::<User, ServiceError>(ServiceError::Unauthorized),
{
}

/// Creation is open to every caller: `create_user` answers what the
/// repository answered, and never `Unauthorized`.
pub proof fn law_creation_is_never_refused<T: Repository + Send + Sync + 'static>(
    svc: Rpts02Service<T>,
    user: User,
    answer: Result<User, ServiceError>,
)
    ensures
        svc.answers_create(user, answer) <==> exists|stored: Result<User, StorageError>|
            #[trigger] svc.repository.answers_create(user, stored) && answer == service_answer(
                stored,
            ),
        svc.answers_create(user, answer) ==> answer != Err::<User, ServiceError>(
            ServiceError::Unauthorized,
        ),
{
}

/// The text form of an identifier has 36 characters, so a caller identity of
/// any other length is authorized for no record.
pub proof fn law_identity_of_other_length_is_refused(user_id: UserId, caller_id: Seq<char>)
    requires
        caller_id.len() != 36,
    ensures
        !is_authorized(user_id, Some(caller_id)),
{
}

/// A caller whose identity is the text form of an identifier is authorized
/// for the record of that identifier and for no other record.
pub proof fn law_owner_and_no_other(user_id: UserId, caller: UserId)
    ensures
        is_authorized(user_id, Some(hyphenated(caller.bits))) <==> user_id == caller,
{
    law_text_form_names_one_identifier(user_id, caller);
}

} // verus!
