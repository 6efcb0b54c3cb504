//! The `User` domain: its model, the inputs and results of its mutations, and the decisions
//! that its GraphQL resolvers and its service make.

pub mod model;
pub mod mutations;
pub mod resolver;
pub mod service;
