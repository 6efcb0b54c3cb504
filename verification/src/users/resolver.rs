//! The decisions of the GraphQL resolvers for `User`. The resolvers read the request's
//! current User from the GraphQL context and call the users service; what they return is
//! decided here.

use vstd::prelude::*;

use super::model::User;
use super::mutations::{CreateUserInput, MutateUserResult};

verus! {

/// The Query segment for Users
#[derive(Default)]
pub struct UsersQuery {}

/// The Mutation segment for Users
#[derive(Default)]
pub struct UsersMutation {}

/// An error that a resolver answers with: its message and the HTTP status code that goes
/// with it.
#[derive(Clone, Debug, Eq, PartialEq)]
pub struct ResolverError {
    pub message: String,
    pub status: u16,
}

/// What getting or creating the current User does next: answer with the User already in the
/// context, or create a User with the given email.
#[derive(Clone, Debug, Eq, PartialEq)]
pub enum GetOrCreateStep {
    Existing(MutateUserResult),
    Create { email: String },
}

/// Queries for the User model
impl UsersQuery {
    /// Get the current User from the GraphQL context: the context's User, unchanged.
    pub fn get_current_user(&self, current: &Option<User>) -> (user: Option<User>)
        ensures
            user == *current,
    {
        match current {
            Some(u) => Some(u.duplicate()),
            None => None,
        }
    }
}

/// Mutations for User model
impl UsersMutation {
    /// Get or create the current User based on the current token username (the "sub"
    /// claim): if the User exists in the GraphQL context it is returned, and nothing is
    /// created; otherwise a User is created with the input's email.
    pub fn get_or_create_current_user(&self, current: &Option<User>, input: CreateUserInput) -> (step: GetOrCreateStep)
        ensures
            match *current {
                Some(user) => step == GetOrCreateStep::Existing(MutateUserResult { user: Some(user) }),
                None => step == GetOrCreateStep::Create { email: input.email },
            },
    {
        match current {
            Some(user) => GetOrCreateStep::Existing(MutateUserResult { user: Some(user.duplicate()) }),
            None => GetOrCreateStep::Create { email: input.email },
        }
    }

    /// The answer once the users service has tried to create the User: the created User, or
    /// `Error while creating User` with status 500 when the service failed.
    pub fn created_user_result<E>(&self, created: Result<User, E>) -> (res: Result<MutateUserResult, ResolverError>)
        ensures
            match created {
                Ok(user) => res == Ok::<MutateUserResult, ResolverError>(MutateUserResult { user: Some(user) }),
                Err(_) => res matches Err(e) && e.message@ == "Error while creating User"@ && e.status == 500,
            },
    {
        match created {
            Ok(user) => Ok(MutateUserResult { user: Some(user) }),
            Err(_) => Err(ResolverError { message: String::from_str("Error while creating User"), status: 500 }),
        }
    }
}

} // verus!
