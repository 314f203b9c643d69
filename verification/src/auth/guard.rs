//! The check in front of the file-system routes: a request carries a
//! session token in its `Authorization` header, whose session names the
//! user.
use vstd::prelude::*;
use crate::auth::token::{self, session_key};
use crate::config::Config;
use crate::database::redis::RedisCommand;
use crate::server::reply::{Reply, Status, status_only};

verus! {

/// The user a request acts for.
#[derive(Debug, Clone, PartialEq, Eq)]
pub struct UserCredential {
    pub user_id: String,
}

/// The first step for a request whose `Authorization` header reads
/// `header` (`None` when absent or not text): without one the request is
/// refused as unauthorized, else the session of the token is looked up.
pub fn auth(config: &Config, header: Option<&str>) -> (res: Result<RedisCommand, Reply>)
    ensures
        match header {
            None => res matches Err(r) && status_only(r, Status::Unauthorized),
            Some(t) => res matches Ok(c) && c matches RedisCommand::Get { key } && key@ == session_key(
                config.APP_HOST@,
                t@,
            ),
        },
{
    match header {
        Some(t) => Ok(token::verify(config, t)),
        None => Err(Reply::status(Status::Unauthorized)),
    }
}

/// The user of a request whose session lookup gave `session`: the user
/// stored in the session, or an unauthorized refusal when there is none.
pub fn credential(session: Result<String, ()>) -> (res: Result<UserCredential, Reply>)
    ensures
        match session {
            Ok(u) => res matches Ok(c) && c.user_id == u,
            Err(_) => res matches Err(r) && status_only(r, Status::Unauthorized),
        },
{
    match session {
        Ok(user_id) => Ok(UserCredential { user_id }),
        Err(_) => Err(Reply::status(Status::Unauthorized)),
    }
}

} // verus!
