//! The HTTP handlers' decisions. Each handler is a chain of steps: a step
//! either asks the application for an outside result (a record, a session,
//! a file on disk) or ends with the reply to send.
pub mod reply;
pub mod fs;
pub mod user;
pub mod auth;
pub mod search;
