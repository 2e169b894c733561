//! Session tokens.

pub mod auth;
