//! Stores outside the process.
pub mod redis;
