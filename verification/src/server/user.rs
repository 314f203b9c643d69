//! The account routes: sign up, show, update and delete the account.
use vstd::prelude::*;
use crate::auth::token::{self, session_key, AuthError};
use crate::clock::now_millis;
use crate::config::Config;
use crate::database::redis::RedisCommand;
use crate::server::reply::{is_message, status_only, Payload, Reply, Status};
use crate::sql::{is_clock_time, statement, text, ParamView, SqlParam, Statement, StatementView};
use crate::user::{new_user_spec, User, UserInsert};
use crate::text::as_deref;

verus! {

/// The body of a sign-up.
#[derive(Debug, Clone, PartialEq, Eq)]
pub struct UserCreateRequest {
    pub name: Option<String>,
    pub password: String,
    pub role: String,
}

/// The body of an account deletion: the session token `i`.
#[derive(Debug, Clone, PartialEq, Eq)]
pub struct UserDeleteRequest {
    pub i: String,
}

/// The statements of an account deletion: `mark` is run as a query that
/// has to return a row, then `delete`.
#[derive(Debug, Clone, PartialEq, Eq)]
pub struct UserDeletion {
    pub mark: Statement,
    pub delete: Statement,
}


/// The first step of a sign-up: the new account (with no summary) and the
/// statements that store it.
pub fn create_user(payload: &UserCreateRequest) -> (ins: UserInsert)
    ensures
        new_user_spec(ins, payload.password@, payload.role@, payload.name.deep_view(), None),
{
    User::new(payload.password.as_str(), payload.role.as_str(), as_deref(&payload.name), None)
}

/// The account once its statements ran (`true`) or failed, the failure
/// being a 500 reply.
pub fn user_stored(ins: UserInsert, stored: bool) -> (res: Result<User, Reply>)
    ensures
        stored ==> res == Ok::<User, Reply>(ins.user),
        !stored ==> (res matches Err(r) && status_only(r, Status::InternalServerError)),
{
    if stored {
        Ok(ins.user)
    } else {
        Err(Reply::status(Status::InternalServerError))
    }
}

/// The reply to a sign-up of `user` once a login was tried: the account's
/// identifier, name, creation time, root directory and token, or a 500
/// reply when the login failed.
pub fn user_created(user: User, login: Result<String, AuthError>) -> (r: Reply)
    ensures
        match login {
            Ok(t) => r.status == Status::Success && r.payload == (Payload::NewUser {
                id: user.id,
                name: user.name,
                created_at: user.created_at,
                token: t,
                root: user.root,
            }),
            Err(_) => status_only(r, Status::InternalServerError),
        },
{
    match login {
        Ok(t) => Reply {
            status: Status::Success,
            payload: Payload::NewUser {
                id: user.id,
                name: user.name,
                created_at: user.created_at,
                token: t,
                root: user.root,
            },
        },
        Err(_) => Reply::status(Status::InternalServerError),
    }
}

/// The first step of showing the account of the request whose
/// `Authorization` header reads `header`: without one a 401 reply, else the
/// session lookup of the token.
pub fn show_user(config: &Config, header: Option<&str>) -> (res: Result<RedisCommand, Reply>)
    ensures
        match header {
            None => res matches Err(r) && status_only(r, Status::Unauthorized),
            Some(t) => res matches Ok(c) && c matches RedisCommand::Get { key } && key@ == session_key(
                config.APP_HOST@,
                t@,
            ),
        },
{
    match header {
        Some(t) => Ok(token::verify(config, t)),
        None => Err(Reply::status(Status::Unauthorized)),
    }
}

/// The query for the user of the session looked up as `session`, or a 500
/// reply when there is none.
pub fn show_user_session(session: Result<String, ()>) -> (res: Result<Statement, Reply>)
    ensures
        match session {
            Ok(u) => res matches Ok(st) && st@ == (StatementView {
                sql: "SELECT * FROM \"users\" WHERE id = $1;"@,
                params: seq![ParamView::Text(u@)],
            }),
            Err(_) => res matches Err(r) && status_only(r, Status::InternalServerError),
        },
{
    match session {
        Ok(user_id) => Ok(User::read(user_id.as_str())),
        Err(_) => Err(Reply::status(Status::InternalServerError)),
    }
}

/// The reply with the user read as `found`, without its stored password,
/// which never leaves the server; or a 500 reply.
pub fn show_user_found(found: Result<User, ()>) -> (r: Reply)
    ensures
        match found {
            Ok(u) => r.status == Status::Success && r.payload == Payload::UserRecord(User { password: None, ..u }),
            Err(_) => status_only(r, Status::InternalServerError),
        },
{
    match found {
        Ok(u) => Reply { status: Status::Success, payload: Payload::UserRecord(User { password: None, ..u }) },
        Err(_) => Reply::status(Status::InternalServerError),
    }
}

/// The reply to an account update, which is not offered: 404 with
/// `{"Err": "TODO"}`.
pub fn update_user() -> (r: Reply)
    ensures
        is_message(r, Status::NotFound, "Err"@, "TODO"@),
{
    Reply::message(Status::NotFound, "Err", "TODO")
}

/// The first step of an account deletion: the session lookup of the
/// request's token.
pub fn delete_user(config: &Config, payload: &UserDeleteRequest) -> (c: RedisCommand)
    ensures
        c matches RedisCommand::Get { key } && key@ == session_key(config.APP_HOST@, payload.i@),
{
    token::verify(config, payload.i.as_str())
}

/// The statements that delete the account of the session looked up as
/// `session`: mark the user deleted now, then mark it through the usual
/// deletion; without a session a 400 reply with `{"Err": "Delete failed."}`.
pub fn delete_user_session(session: Result<String, ()>) -> (res: Result<UserDeletion, Reply>)
    ensures
        match session {
            Ok(u) => res matches Ok(d) && {
                &&& d.mark@.sql == "UPDATE \"users\" SET \"deleted_at\" = $1, \"is_deleted\" = $2 WHERE \"id\" = $3;"@
                &&& d.mark@.params.len() == 3
                &&& is_clock_time(d.mark@.params[0])
                &&& d.mark@.params[1] == ParamView::Bool(true)
                &&& d.mark@.params[2] == ParamView::Text(u@)
                &&& d.delete@.sql == "UPDATE \"users\" SET is_deleted = $1, deleted_at = $2 WHERE id = $3 AND is_deleted = $4;"@
                &&& d.delete@.params.len() == 4
                &&& d.delete@.params[0] == ParamView::Bool(true)
                &&& is_clock_time(d.delete@.params[1])
                &&& d.delete@.params[2] == ParamView::Text(u@)
                &&& d.delete@.params[3] == ParamView::Bool(false)
            },
            Err(_) => res matches Err(r) && is_message(r, Status::BadRequest, "Err"@, "Delete failed."@),
        },
{
    match session {
        Ok(user_id) => {
            let deleted_at = now_millis();
            let mark = statement(
                "UPDATE \"users\" SET \"deleted_at\" = $1, \"is_deleted\" = $2 WHERE \"id\" = $3;",
                vec![SqlParam::Int(deleted_at), SqlParam::Bool(true), text(user_id.as_str())],
            );
            let delete = User::delete(user_id.as_str());
            Ok(UserDeletion { mark, delete })
        },
        Err(_) => Err(Reply::message(Status::BadRequest, "Err", "Delete failed.")),
    }
}

/// The reply once the deletion ran (`true`) or failed: 200 with
/// `{"Ok": "Delete Success."}`, or 500.
pub fn user_deleted(succeeded: bool) -> (r: Reply)
    ensures
        succeeded ==> is_message(r, Status::Success, "Ok"@, "Delete Success."@),
        !succeeded ==> status_only(r, Status::InternalServerError),
{
    if succeeded {
        Reply::message(Status::Success, "Ok", "Delete Success.")
    } else {
        Reply::status(Status::InternalServerError)
    }
}

} // verus!
