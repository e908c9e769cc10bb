//! The user record.

use crate::calendar::{Date, UtcDateTime};
use crate::identifier::UserId;
use vstd::prelude::*;

verus! {

/// A user record. Storage assigns `id`, `created_at` and `updated_at`; a
/// record that was never stored has none of them.
#[derive(Debug, PartialEq, Clone)]
pub struct User {
    pub id: Option<UserId>,
    pub name: String,
    pub birth_date: Date,
    pub created_at: Option<UtcDateTime>,
    pub updated_at: Option<UtcDateTime>,
    pub custom_data: Option<CustomData>,
}

impl Default for User {
    /// A record that was never stored, with an empty name and the birth date
    /// 1977-03-10.
    fn default() -> (user: User)
        ensures
            user.id is None,
            user.name@ == Seq::<char>::empty(),
            user.birth_date@ == (1977int, 3int, 10int),
            user.created_at is None,
            user.updated_at is None,
            user.custom_data is None,
    {
        User {
            id: None,
            name: String::new(),
            birth_date: Date::from_ymd(1977, 3, 10),
            created_at: None,
            updated_at: None,
            custom_data: None,
        }
    }
}

/// The part of a user record that its owner may replace.
#[derive(Clone, Copy, PartialEq, Eq, Structural, Debug)]
pub struct CustomData {
    pub random: u32,
}

impl Default for CustomData {
    fn default() -> (data: CustomData)
        ensures
            data.random == 0,
    {
        CustomData { random: 0 }
    }
}

} // verus!
