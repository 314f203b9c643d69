//! Session tokens. A token is up to five base-36 digits drawn at random; the
//! session store maps `authority::<token>` to the user's identifier.
use vstd::prelude::*;
use crate::config::Config;
use crate::crypto::{password_hash, password_matches, password_matches_spec};
use crate::database::redis::{self, scoped_key, RedisCommand};
use crate::text::prefixed;
use crate::id::{is_digit36, lemma_radix36_shape, pow36, radix36, radix36_upper, random_below};
use crate::user::User;

verus! {

/// How long a session lasts, in seconds, as the store is told.
pub const TOKEN_LIFETIME: u64 = 86400 * 1000 * 1000;

/// Tokens are drawn from `[0, 36^5)`.
pub const TOKEN_RANGE: i64 = 60466176;

/// Why a login or a logout failed.
#[derive(Debug, Clone, Copy, PartialEq, Eq, Structural)]
pub enum AuthError {
    /// The password is not the user's.
    IncorrectCredentials,
    /// The session could not be stored.
    RedisFailed,
    /// The user could not be read.
    DatabaseRead,
    /// The session could not be removed.
    NotRemoved,
}

impl AuthError {
    /// The message of the error.
    pub open spec fn message_spec(self) -> Seq<char> {
        match self {
            AuthError::IncorrectCredentials => "Incorrect id or password."@,
            AuthError::RedisFailed => "Redis failed to set value."@,
            AuthError::DatabaseRead => "Read failed in Database."@,
            AuthError::NotRemoved => ""@,
        }
    }

    /// The message of the error.
    pub fn message(&self) -> (res: String)
        ensures
            res@ == self.message_spec(),
    {
        match self {
            AuthError::IncorrectCredentials => String::from_str("Incorrect id or password."),
            AuthError::RedisFailed => String::from_str("Redis failed to set value."),
            AuthError::DatabaseRead => String::from_str("Read failed in Database."),
            AuthError::NotRemoved => String::from_str(""),
        }
    }
}

/// The store key of the token `token`, before host scoping.
pub open spec fn token_key(token: Seq<char>) -> Seq<char> {
    "authority::"@ + token
}

/// The stored key of the session of `token` on the host `host`.
pub open spec fn session_key(host: Seq<char>, token: Seq<char>) -> Seq<char> {
    scoped_key(host, token_key(token))
}

/// `t` is the text of a token: a number below 36^5 in base 36, upper case.
pub open spec fn is_token(t: Seq<char>) -> bool {
    exists|r: int| 0 <= r < TOKEN_RANGE && t == #[trigger] radix36(r as nat)
}

/// A token and the command that opens its session.
#[derive(Debug, Clone, PartialEq, Eq)]
pub struct TokenIssue {
    pub token: String,
    pub command: RedisCommand,
}

/// `c` stores `value` under the session of `token` on `host` for the
/// lifetime of a token.
pub open spec fn opens_session(c: RedisCommand, host: Seq<char>, token: Seq<char>, value: Seq<char>) -> bool {
    c matches RedisCommand::SetEx { key, value: v, seconds } && key@ == session_key(host, token) && v@
        == value && seconds == TOKEN_LIFETIME
}

/// The token text for the draw `r`.
pub fn token_text(r: i64) -> (res: String)
    requires
        0 <= r,
    ensures
        res@ == radix36(r as nat),
{
    radix36_upper(r)
}

/// The session of `token` for `user_id`: its text and the command that
/// stores `user_id` under it.
pub fn issue(config: &Config, user_id: &str, token: String) -> (res: TokenIssue)
    ensures
        res.token == token,
        opens_session(res.command, config.APP_HOST@, token@, user_id@),
{
    let key = prefixed("authority::", token.as_str());
    let command = redis::create(config, key.as_str(), user_id, TOKEN_LIFETIME);
    TokenIssue { token, command }
}

/// A login of `user_id` with the password `pass`, the user having been read
/// as `user`: an unreadable user is `DatabaseRead`; a password whose stored
/// form is not the user's is `IncorrectCredentials`; otherwise a fresh
/// token and the command that opens its session for `user_id`.
pub fn create(config: &Config, user_id: &str, pass: &str, user: Result<User, ()>) -> (res: Result<
    TokenIssue,
    AuthError,
>)
    ensures
        match user {
            Err(_) => res == Err::<TokenIssue, AuthError>(AuthError::DatabaseRead),
            Ok(u) => if password_matches_spec(u.password.deep_view(), pass@) {
                res matches Ok(t) && is_token(t.token@) && opens_session(
                    t.command,
                    config.APP_HOST@,
                    t.token@,
                    user_id@,
                )
            } else {
                res == Err::<TokenIssue, AuthError>(AuthError::IncorrectCredentials)
            },
        },
{
    match user {
        Ok(u) => {
            if password_matches(&u.password, pass) {
                let r = random_below(TOKEN_RANGE);
                let token = token_text(r);
                assert(0 <= r < TOKEN_RANGE && token@ == radix36(r as nat));
                let issued = issue(config, user_id, token);
                Ok(issued)
            } else {
                Err(AuthError::IncorrectCredentials)
            }
        },
        Err(_) => Err(AuthError::DatabaseRead),
    }
}

/// The end of a login once the store answered: the token if the session
/// was stored, else `RedisFailed`.
pub fn created(issued: TokenIssue, stored: bool) -> (res: Result<String, AuthError>)
    ensures
        stored ==> res == Ok::<String, AuthError>(issued.token),
        !stored ==> res == Err::<String, AuthError>(AuthError::RedisFailed),
{
    if stored {
        Ok(issued.token)
    } else {
        Err(AuthError::RedisFailed)
    }
}

/// The command that reads the user identifier of the session of `token`.
pub fn verify(config: &Config, token: &str) -> (c: RedisCommand)
    ensures
        c matches RedisCommand::Get { key } && key@ == session_key(config.APP_HOST@, token@),
{
    let key = prefixed("authority::", token);
    redis::read(config, key.as_str())
}

/// The command that removes the session of `token`.
pub fn delete(config: &Config, token: &str) -> (c: RedisCommand)
    ensures
        c matches RedisCommand::Del { key } && key@ == session_key(config.APP_HOST@, token@),
{
    let key = prefixed("authority::", token);
    redis::delete(config, key.as_str())
}

/// The end of a logout once the store answered.
pub fn deleted(removed: bool) -> (res: Result<(), AuthError>)
    ensures
        removed ==> res == Ok::<(), AuthError>(()),
        !removed ==> res == Err::<(), AuthError>(AuthError::NotRemoved),
{
    if removed {
        Ok(())
    } else {
        Err(AuthError::NotRemoved)
    }
}

/// Different tokens have different sessions: the stored key of a session
/// determines its token.
pub proof fn lemma_session_key_injective(host: Seq<char>, t1: Seq<char>, t2: Seq<char>)
    ensures
        session_key(host, t1) == session_key(host, t2) ==> t1 == t2,
{
    let k1 = session_key(host, t1);
    let k2 = session_key(host, t2);
    let n = host.len() + 2 + 11;
    if k1 == k2 {
        reveal_strlit("authority::");
        reveal_strlit("::");
        assert(k1.skip(n as int) =~= t1);
        assert(k2.skip(n as int) =~= t2);
    }
}

/// The session a login opened for `issued` is the one looked up, and the
/// one removed, for a token exactly when that token is `issued`.
pub proof fn lemma_session_found_by_its_token(
    host: Seq<char>,
    opened: RedisCommand,
    issued: Seq<char>,
    user_id: Seq<char>,
    looked_up: Seq<char>,
)
    requires
        opens_session(opened, host, issued, user_id),
    ensures
        opened matches RedisCommand::SetEx { key, .. } && (key@ == session_key(host, looked_up) <==> issued
            == looked_up),
{
    lemma_session_key_injective(host, issued, looked_up);
}

/// A token has one to five characters, each a decimal digit or an
/// upper-case letter.
pub proof fn lemma_token_shape(t: Seq<char>)
    requires
        is_token(t),
    ensures
        1 <= t.len() <= 5,
        forall|i: int| 0 <= i < t.len() ==> is_digit36(#[trigger] t[i]),
{
    let r = choose|r: int| 0 <= r < TOKEN_RANGE && t == #[trigger] radix36(r as nat);
    assert(pow36(5) == TOKEN_RANGE) by {
        reveal_with_fuel(pow36, 6);
    }
    lemma_radix36_shape(r as nat, 5);
}

/// A password logs in against the stored form of itself, and against the
/// stored form of another password exactly when their stored forms agree.
pub proof fn lemma_login_matches_stored_password(password: Seq<char>, attempt: Seq<char>)
    ensures
        password_matches_spec(Some(password_hash(password)), password),
        password_matches_spec(Some(password_hash(password)), attempt) <==> password_hash(attempt)
            == password_hash(password),
{
}

/// A missing stored password never logs in.
pub proof fn lemma_no_password_never_logs_in(attempt: Seq<char>)
    ensures
        !password_matches_spec(None, attempt),
{
}

} // verus!
