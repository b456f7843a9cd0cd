//! Commit coordination for versioned, append-only table logs.

pub mod auth;
pub mod commit;
pub mod config;
pub mod errors;
pub mod mapping;
pub mod table_lock;
