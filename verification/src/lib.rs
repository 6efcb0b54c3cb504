//! Authentication of requests by bearer token and the `User` domain of the API server.

pub mod auth;
pub mod role_grants;
pub mod trusted;
pub mod users;
