//! The `RoleGrant` domain.

pub mod model;
