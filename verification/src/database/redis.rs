//! Commands for the key-value store that keeps sessions. Every key is
//! scoped by the service's host name.
use vstd::prelude::*;
use crate::config::Config;
use crate::text::prefixed;

verus! {

/// A command for the key-value store.
#[derive(Debug, Clone, PartialEq, Eq)]
pub enum RedisCommand {
    /// Store `value` under `key` for `seconds` seconds.
    SetEx { key: String, value: String, seconds: u64 },
    /// Read the value under `key`.
    Get { key: String },
    /// Remove `key`.
    Del { key: String },
}

/// The stored key for `key` on the host `host`: `host::key`.
pub open spec fn scoped_key(host: Seq<char>, key: Seq<char>) -> Seq<char> {
    host + "::"@ + key
}

/// The stored key for `key` under the configured host.
pub fn scope(config: &Config, key: &str) -> (res: String)
    ensures
        res@ == scoped_key(config.APP_HOST@, key@),
{
    let mut res = prefixed(config.APP_HOST.as_str(), "::");
    res.append(key);
    res
}

/// The command that stores `value` under `key` for `expires` seconds.
pub fn create(config: &Config, key: &str, value: &str, expires: u64) -> (c: RedisCommand)
    ensures
        c matches RedisCommand::SetEx { key: k, value: v, seconds } && k@ == scoped_key(
            config.APP_HOST@,
            key@,
        ) && v@ == value@ && seconds == expires,
{
    RedisCommand::SetEx { key: scope(config, key), value: String::from_str(value), seconds: expires }
}

/// The command that reads the value under `key`.
pub fn read(config: &Config, key: &str) -> (c: RedisCommand)
    ensures
        c matches RedisCommand::Get { key: k } && k@ == scoped_key(config.APP_HOST@, key@),
{
    RedisCommand::Get { key: scope(config, key) }
}

/// The command that removes `key`.
pub fn delete(config: &Config, key: &str) -> (c: RedisCommand)
    ensures
        c matches RedisCommand::Del { key: k } && k@ == scoped_key(config.APP_HOST@, key@),
{
    RedisCommand::Del { key: scope(config, key) }
}

} // verus!
