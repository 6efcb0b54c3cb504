//! Authentication: reading the bearer token of a request and turning it into a `Subject`.

pub mod authenticate;
pub mod errors;
pub mod keys;
