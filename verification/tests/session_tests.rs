use backend::auth::guard::{auth, credential, UserCredential};
use backend::auth::token::{self, AuthError, TOKEN_LIFETIME};
use backend::config::Config;
use backend::crypto::hash_password;
use backend::database::redis::{self, scope, RedisCommand};
use backend::server::reply::{Payload, Reply, Status};
use backend::user::User;

fn config() -> Config {
    Config {
        APP_HOST: "host".to_string(),
        APP_PORT: 1,
        DB_HOST: String::new(),
        DB_PORT: String::new(),
        DB_USER: String::new(),
        DB_PASSWORD: String::new(),
        DB_NAME: String::new(),
        REDIS_HOST: String::new(),
        REDIS_PORT: String::new(),
        STATIC_FILE_DIR: String::new(),
    }
}

fn user_with_password(pw: Option<String>) -> User {
    User {
        id: "u1".to_string(),
        name: None,
        summary: None,
        role: "r".to_string(),
        password: pw,
        root: "Droot".to_string(),
        created_at: 0,
        deleted_at: None,
        is_deleted: false,
    }
}

#[test]
fn redis_keys_are_scoped_by_host() {
    assert_eq!(scope(&config(), "k"), "host::k");
    assert_eq!(
        redis::create(&config(), "k", "v", 9),
        RedisCommand::SetEx { key: "host::k".to_string(), value: "v".to_string(), seconds: 9 }
    );
    assert_eq!(redis::read(&config(), "k"), RedisCommand::Get { key: "host::k".to_string() });
    assert_eq!(redis::delete(&config(), "k"), RedisCommand::Del { key: "host::k".to_string() });
}

#[test]
fn token_text_is_upper_base36() {
    assert_eq!(token::token_text(0), "0");
    assert_eq!(token::token_text(35), "Z");
    assert_eq!(token::token_text(60466175), "ZZZZZ");
}

#[test]
fn issue_opens_the_session() {
    let t = token::issue(&config(), "u1", "ABC".to_string());
    assert_eq!(t.token, "ABC");
    assert_eq!(
        t.command,
        RedisCommand::SetEx { key: "host::authority::ABC".to_string(), value: "u1".to_string(), seconds: 86_400_000_000 }
    );
    assert_eq!(TOKEN_LIFETIME, 86_400_000_000);
}

#[test]
fn login_with_the_right_password() {
    let u = user_with_password(Some(hash_password("pw")));
    let t = token::create(&config(), "u1", "pw", Ok(u)).unwrap();
    assert!(!t.token.is_empty() && t.token.len() <= 5);
    assert!(t.token.chars().all(|c| c.is_ascii_digit() || c.is_ascii_uppercase()));
    let n = i64::from_str_radix(&t.token, 36).unwrap();
    assert!(n >= 0 && n < 60466176);
    match t.command {
        RedisCommand::SetEx { key, value, seconds } => {
            assert_eq!(key, format!("host::authority::{}", t.token));
            assert_eq!(value, "u1");
            assert_eq!(seconds, TOKEN_LIFETIME);
        }
        other => panic!("unexpected command {:?}", other),
    }
}

#[test]
fn login_with_a_wrong_password() {
    let u = user_with_password(Some(hash_password("pw")));
    assert_eq!(token::create(&config(), "u1", "nope", Ok(u)).unwrap_err(), AuthError::IncorrectCredentials);
    let u = user_with_password(None);
    assert_eq!(token::create(&config(), "u1", "pw", Ok(u)).unwrap_err(), AuthError::IncorrectCredentials);
}

#[test]
fn login_without_a_user() {
    assert_eq!(token::create(&config(), "u1", "pw", Err(())).unwrap_err(), AuthError::DatabaseRead);
}

#[test]
fn login_ends_with_the_store() {
    let t = token::issue(&config(), "u1", "X".to_string());
    assert_eq!(token::created(t.clone(), true), Ok("X".to_string()));
    assert_eq!(token::created(t, false), Err(AuthError::RedisFailed));
}

#[test]
fn verify_and_delete_use_the_session_key() {
    assert_eq!(token::verify(&config(), "ABC"), RedisCommand::Get { key: "host::authority::ABC".to_string() });
    assert_eq!(token::delete(&config(), "ABC"), RedisCommand::Del { key: "host::authority::ABC".to_string() });
    assert_eq!(token::deleted(true), Ok(()));
    assert_eq!(token::deleted(false), Err(AuthError::NotRemoved));
}

#[test]
fn session_issued_is_found() {
    let issued = token::issue(&config(), "u1", "Q1".to_string());
    let looked = token::verify(&config(), "Q1");
    match (issued.command, looked) {
        (RedisCommand::SetEx { key: a, .. }, RedisCommand::Get { key: b }) => assert_eq!(a, b),
        _ => panic!("unexpected commands"),
    }
}

#[test]
fn auth_error_messages() {
    assert_eq!(AuthError::IncorrectCredentials.message(), "Incorrect id or password.");
    assert_eq!(AuthError::RedisFailed.message(), "Redis failed to set value.");
    assert_eq!(AuthError::DatabaseRead.message(), "Read failed in Database.");
}

#[test]
fn guard_without_header_is_unauthorized() {
    let r = auth(&config(), None).unwrap_err();
    assert_eq!(r, Reply { status: Status::Unauthorized, payload: Payload::Nothing });
}

#[test]
fn guard_looks_up_the_token() {
    assert_eq!(auth(&config(), Some("T")).unwrap(), RedisCommand::Get { key: "host::authority::T".to_string() });
}

#[test]
fn guard_credential() {
    assert_eq!(credential(Ok("u9".to_string())).unwrap(), UserCredential { user_id: "u9".to_string() });
    assert_eq!(credential(Err(())).unwrap_err().status, Status::Unauthorized);
}
