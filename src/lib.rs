//! Authentication core of a small dashboard application: credential storage,
//! password hashing, server-side sessions and the per-request access guard.

pub mod user;
pub mod password;
pub mod store;
pub mod session;
pub mod guard;
pub mod auth;
