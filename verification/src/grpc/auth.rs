//! The check of the bearer token that comes before every call.

use crate::grpc::status::{Code, Status};
use vstd::prelude::*;
use vstd::string::*;

verus! {

/// Lets a call pass if its `authorization` metadata is exactly
/// `Bearer myjwttoken`, and rejects it as unauthenticated if the value is
/// another one or there is none.
pub fn interceptor(authorization: Option<&str>) -> (verdict: Result<(), Status>)
    ensures
        verdict is Ok <==> (authorization matches Some(value) && value@ == "Bearer myjwttoken"@),
        verdict matches Err(status) ==> status.code == Code::Unauthenticated && status.message@
            == "The token is invalid"@,
{
    let token = String::from_str("Bearer myjwttoken");
    match authorization {
        Some(value) => {
            if String::from_str(value) == token {
                return Ok(());
            }
        },
        None => {},
    }
    Err(Status::unauthenticated(String::from_str("The token is invalid")))
}

} // verus!
