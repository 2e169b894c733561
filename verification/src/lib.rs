//! Credential and session domain model of an authentication service:
//! validated value types, the user, denylist and one-time-code stores,
//! session-token rules and the login protocol that ties them together.

pub mod domain;
pub mod routes;
pub mod secret;
pub mod services;
pub mod utils;
