//! Sessions: issuing, checking and revoking tokens.
pub mod token;
pub mod guard;
