//! Settings of the service, read by the application from its YAML file.
use vstd::prelude::*;

verus! {

/// Host names, ports, credentials and the directory that holds uploaded
/// objects.
#[allow(non_snake_case)]
#[derive(Debug, Clone, PartialEq, Eq)]
pub struct Config {
    pub APP_HOST: String,
    pub APP_PORT: i32,
    pub DB_HOST: String,
    pub DB_PORT: String,
    pub DB_USER: String,
    pub DB_PASSWORD: String,
    pub DB_NAME: String,
    pub REDIS_HOST: String,
    pub REDIS_PORT: String,
    pub STATIC_FILE_DIR: String,
}

} // verus!
