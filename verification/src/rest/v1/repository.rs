//! The boundary to storage: four operations on user records, each one
//! statement, and the failure that each of them can report.

use crate::identifier::UserId;
use crate::rest::models::{CustomData, User};
use vstd::prelude::*;
use vstd::string::*;

verus! {

/// A failure that storage reports.
#[derive(Debug, PartialEq, Clone)]
pub enum StorageError {
    /// The statement expected a row and none matched.
    RowNotFound,
    /// Any other failure, with the description that storage gave of it.
    Other(String),
}

impl StorageError {
    /// The description of the failure.
    pub open spec fn text(self) -> Seq<char> {
        match self {
            StorageError::RowNotFound =>
                "no rows returned by a query that expected to return at least one row"@,
            StorageError::Other(description) => description@,
        }
    }

    /// The description of the failure.
    pub fn to_string(&self) -> (text: String)
        ensures
            text@ == self.text(),
    {
        match self {
            StorageError::RowNotFound => String::from_str(
                "no rows returned by a query that expected to return at least one row",
            ),
            StorageError::Other(description) => description.clone(),
        }
    }
}

/// Storage of user records. Each operation is one statement and returns the
/// record as storage holds it after the statement, or the failure.
///
/// An implementation may say in the `answers_` functions what it promises of
/// its answers; the service hands these promises on to its callers. One that
/// leaves them as they are promises nothing.
pub trait Repository {
    /// Whether `found` can be the answer to `get_user(id)`.
    open spec fn answers_get(&self, id: UserId, found: Result<User, StorageError>) -> bool {
        true
    }

    /// Whether `created` can be the answer to `create_user(user)`.
    open spec fn answers_create(&self, user: User, created: Result<User, StorageError>) -> bool {
        true
    }

    /// Whether `updated` can be the answer to `update_user(id, custom_data)`.
    open spec fn answers_update(
        &self,
        id: UserId,
        custom_data: CustomData,
        updated: Result<User, StorageError>,
    ) -> bool {
        true
    }

    /// Whether `deleted` can be the answer to `delete_user(id)`.
    open spec fn answers_delete(&self, id: UserId, deleted: Result<User, StorageError>) -> bool {
        true
    }

    /// Gets a user by id.
    fn get_user(&self, id: &UserId) -> (found: Result<User, StorageError>)
        ensures
            self.answers_get(*id, found),
    ;

    /// Stores a new user.
    fn create_user(&self, user: User) -> (created: Result<User, StorageError>)
        ensures
            self.answers_create(user, created),
    ;

    /// Replaces the custom data of a user.
    fn update_user(&self, id: &UserId, custom_data: CustomData) -> (updated: Result<
        User,
        StorageError,
    >)
        ensures
            self.answers_update(*id, custom_data, updated),
    ;

    /// Deletes a user and returns the record that was deleted.
    fn delete_user(&self, id: &UserId) -> (deleted: Result<User, StorageError>)
        ensures
            self.answers_delete(*id, deleted),
    ;
}

} // verus!
