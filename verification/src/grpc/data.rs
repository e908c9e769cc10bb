//! Users as storage holds them, and how a row becomes a message.

use crate::calendar::{unix_midnight, Date, UtcDateTime};
use crate::grpc::proto::{Timestamp, User};
use crate::identifier::{hyphenated, UserId};
use vstd::prelude::*;

verus! {

/// A failure of the repository, as the storage client describes it.
#[derive(Debug, PartialEq, Clone)]
pub struct RepositoryError {
    pub detail: String,
}

/// Storage of users, read by name.
///
/// An implementation may say in `answers_get` what it promises of its
/// answers; the service hands the promise on. One that leaves it as it is
/// promises nothing.
pub trait Repository {
    /// Whether `found` can be the answer to `get_user(name)`.
    open spec fn answers_get(&self, name: Seq<char>, found: Result<User, RepositoryError>) -> bool {
        true
    }

    /// Gets the user of the given name.
    fn get_user(&self, name: &str) -> (found: Result<User, RepositoryError>)
        ensures
            self.answers_get(name@, found),
    ;
}

/// `serde_json::Value`, a JSON value. Proofs see nothing inside it; what the
/// functions below read of it has the names `json_is_object` and
/// `json_members`.
#[verifier::external_type_specification]
#[verifier::external_body]
pub struct ExJsonValue(serde_json::Value);

/// Whether a JSON value is an object.
pub uninterp spec fn json_is_object(json: serde_json::Value) -> bool;

/// The members of a JSON object, in the order in which the object hands
/// them out: each key, and its value as an `i64` where the value is an
/// integer that fits in one.
pub uninterp spec fn json_members(json: serde_json::Value) -> Seq<(Seq<char>, Option<i64>)>;

/// Whether no key stands twice among `members`.
pub open spec fn has_distinct_keys<V>(members: Seq<(Seq<char>, V)>) -> bool {
    forall|i: int, j: int|
        0 <= i < j < members.len() ==> (#[trigger] members[i]).0 != (#[trigger] members[j]).0
}

/// `serde_json::Value::as_object`, the iteration over the `serde_json::Map`
/// that it gives, and `Value::as_i64` on each value. The contract gives what
/// comes back its names: whether there is a map at all is `json_is_object`,
/// and the keys with their numbers, in the order of the iteration, are
/// `json_members`. It claims that one value always gives the same members,
/// and that no key comes twice, since a map holds each key once.
#[verifier::external_body]
fn integer_members(json: &serde_json::Value) -> (members: Option<Vec<(String, Option<i64>)>>)
    ensures
        members is Some <==> json_is_object(*json),
        members matches Some(found) ==> found.deep_view() == json_members(*json),
        members matches Some(found) ==> has_distinct_keys(found.deep_view()),
{
    let object = json.as_object()?;
    let mut members = Vec::new();
    for (key, value) in object {
        members.push((key.clone(), value.as_i64()));
    }
    Some(members)
}

/// Whether a JSON value is an object whose values are all integers that fit
/// in an `i64`.
pub open spec fn is_integer_object(json: serde_json::Value) -> bool {
    &&& json_is_object(json)
    &&& forall|i: int|
        0 <= i < json_members(json).len() ==> (#[trigger] json_members(json)[i]).1 is Some
}

/// The members of an object of integers, each key with its number.
pub open spec fn integer_entries(json: serde_json::Value) -> Seq<(Seq<char>, i64)> {
    Seq::new(
        json_members(json).len(),
        |i: int| (json_members(json)[i].0, json_members(json)[i].1.unwrap()),
    )
}

/// A user as storage holds it.
#[derive(Debug)]
pub struct RawUser {
    pub id: UserId,
    pub name: String,
    pub birth_date: Option<Date>,
    pub created_at: Option<UtcDateTime>,
    pub updated_at: Option<UtcDateTime>,
    pub custom_data: serde_json::Value,
}

/// The entries of an object of integers, or `None` for a JSON value that is
/// no such object.
pub fn try_to_map(json: &serde_json::Value) -> (map: Option<Vec<(String, i64)>>)
    ensures
        map is Some <==> is_integer_object(*json),
        map matches Some(entries) ==> entries.deep_view() == integer_entries(*json),
        map matches Some(entries) ==> has_distinct_keys(entries.deep_view()),
{
    let members = match integer_members(json) {
        Some(members) => members,
        None => {
            return None;
        },
    };
    let mut entries: Vec<(String, i64)> = Vec::new();
    let mut i: usize = 0;
    while i < members.len()
        invariant
            i <= members.len(),
            members.deep_view() == json_members(*json),
            entries.len() == i,
            forall|k: int| 0 <= k < i ==> (#[trigger] json_members(*json)[k]).1 is Some,
            forall|k: int|
                0 <= k < i ==> (#[trigger] entries[k]).0@ == json_members(*json)[k].0
                    && entries[k].1 == json_members(*json)[k].1.unwrap(),
        decreases members.len() - i,
    {
        assert(members.deep_view()[i as int] == json_members(*json)[i as int]);
        match members[i].1 {
            Some(number) => {
                entries.push((members[i].0.clone(), number));
            },
            None => {
                return None;
            },
        }
        i += 1;
    }
    assert(entries.deep_view() =~= integer_entries(*json));
    Some(entries)
}

/// The entries of an object of integers.
pub fn to_map(json: &serde_json::Value) -> (map: Vec<(String, i64)>)
    requires
        is_integer_object(*json),
    ensures
        map.deep_view() == integer_entries(*json),
        has_distinct_keys(map.deep_view()),
{
    try_to_map(json).unwrap()
}

/// The wire form of a point in time: its whole seconds, and no nanoseconds.
pub open spec fn timestamp_of(datetime: Option<UtcDateTime>) -> Option<Timestamp> {
    match datetime {
        Some(dt) => Some(Timestamp { seconds: dt.seconds, nanos: 0 }),
        None => None,
    }
}

/// The wire form of a point in time, if there is one.
pub fn to_timestamp(datetime: Option<UtcDateTime>) -> (timestamp: Option<Timestamp>)
    ensures
        timestamp == timestamp_of(datetime),
{
    match datetime {
        Some(dt) => Some(Timestamp { seconds: dt.seconds, nanos: 0 }),
        None => None,
    }
}

/// The wire form of a date: midnight UTC at the start of that day.
pub open spec fn timestamp_of_date(date: Option<Date>) -> Option<Timestamp> {
    match date {
        Some(d) => Some(Timestamp { seconds: unix_midnight(d@.0, d@.1, d@.2), nanos: 0 }),
        None => None,
    }
}

/// The wire form of a date, if there is one.
pub fn naive_to_timestamp(date: Option<Date>) -> (timestamp: Option<Timestamp>)
    ensures
        timestamp == timestamp_of_date(date),
{
    match date {
        Some(d) => Some(Timestamp { seconds: d.midnight_timestamp(), nanos: 0 }),
        None => None,
    }
}

/// Whether `user` is the message for the row `raw_user`: the identifier in
/// its text form, the name as it is, each time in its wire form, and the
/// custom data entry by entry.
pub open spec fn is_message_of(user: User, raw_user: RawUser) -> bool {
    &&& user.id@ == hyphenated(raw_user.id.bits)
    &&& user.name == raw_user.name
    &&& user.birth_date == timestamp_of_date(raw_user.birth_date)
    &&& user.created_at == timestamp_of(raw_user.created_at)
    &&& user.updated_at == timestamp_of(raw_user.updated_at)
    &&& user.custom_data.deep_view() == integer_entries(raw_user.custom_data)
    &&& has_distinct_keys(user.custom_data.deep_view())
}

/// Puts the message for a row together from the row and its custom data.
fn message(raw_user: RawUser, custom_data: Vec<(String, i64)>) -> (user: User)
    requires
        custom_data.deep_view() == integer_entries(raw_user.custom_data),
        has_distinct_keys(custom_data.deep_view()),
    ensures
        is_message_of(user, raw_user),
{
    User {
        id: raw_user.id.to_string(),
        name: raw_user.name,
        birth_date: naive_to_timestamp(raw_user.birth_date),
        created_at: to_timestamp(raw_user.created_at),
        updated_at: to_timestamp(raw_user.updated_at),
        custom_data,
    }
}

impl User {
    /// The message for a row whose custom data is an object of integers.
    pub fn from(raw_user: RawUser) -> (user: User)
        requires
            is_integer_object(raw_user.custom_data),
        ensures
            is_message_of(user, raw_user),
    {
        let custom_data = to_map(&raw_user.custom_data);
        message(raw_user, custom_data)
    }

    /// The message for a row, or `None` for a row whose custom data is no
    /// object of integers.
    pub fn try_from(raw_user: RawUser) -> (user: Option<User>)
        ensures
            user is Some <==> is_integer_object(raw_user.custom_data),
            user matches Some(message) ==> is_message_of(message, raw_user),
    {
        match try_to_map(&raw_user.custom_data) {
            Some(custom_data) => Some(message(raw_user, custom_data)),
            None => None,
        }
    }
}

} // verus!
