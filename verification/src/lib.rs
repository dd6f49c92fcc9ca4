//! Authentication core of a small user-management service.
//!
//! The crate issues signed, time-limited bearer tokens, validates them as a
//! request guard, and hashes the passwords of stored accounts. Everything that
//! touches a socket, a database or the process environment lives outside this
//! crate and hands plain values in.

pub mod auth;
pub mod bearer;
pub mod credentials;
pub mod error;
pub mod jwt;
pub mod models;
pub mod password;
