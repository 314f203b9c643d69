//! The login route.
use vstd::prelude::*;
use crate::auth::token::AuthError;
use crate::server::reply::{is_message, Payload, Reply, Status};

verus! {

/// The body of a login.
#[derive(Debug, Clone, PartialEq, Eq)]
pub struct LoginRequest {
    pub id: String,
    pub password: String,
}

/// The reply to a login that gave `result`: 200 with `{"i": token}`, or
/// 400 with `{"Err": "failed."}`.
pub fn login(result: Result<String, AuthError>) -> (r: Reply)
    ensures
        match result {
            Ok(t) => r.status == Status::Success && r.payload == Payload::Token(t),
            Err(_) => is_message(r, Status::BadRequest, "Err"@, "failed."@),
        },
{
    match result {
        Ok(t) => Reply { status: Status::Success, payload: Payload::Token(t) },
        Err(_) => Reply::message(Status::BadRequest, "Err", "failed."),
    }
}

} // verus!
