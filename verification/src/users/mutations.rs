//! The inputs and results of the `User` mutations.

use vstd::prelude::*;

use super::model::User;

verus! {

/// The `CreateUserInput` input type
#[derive(Clone, Debug, Default, Eq, PartialEq)]
pub struct CreateUserInput {
    /// The Profile's email address
    pub email: String,
}

/// The `MutateUserResult` input type
#[derive(Clone, Debug, Default, Eq, PartialEq)]
pub struct MutateUserResult {
    /// The User's subscriber ID
    pub user: Option<User>,
}

} // verus!
