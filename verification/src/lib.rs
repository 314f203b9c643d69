//! Verified core of a small file-storage web backend: identifiers, password
//! hashing, session tokens, database statements and the request handlers'
//! decisions. Everything that talks to the network, the disk or the database
//! lives in the application crate, which feeds the outcomes back to the
//! functions here.
pub mod text;
pub mod id;
pub mod config;
pub mod clock;
pub mod crypto;
pub mod sql;
pub mod error;
pub mod file_system;
pub mod user;
pub mod database;
pub mod auth;
pub mod server;
