//! The `User` model.

use vstd::prelude::*;

use crate::trusted::utc_now;

verus! {

/// The User GraphQL and Database Model
#[derive(Clone, Debug, Eq, PartialEq)]
pub struct Model {
    /// The User id
    pub id: String,
    /// The date the User was created
    pub created_at: chrono::NaiveDateTime,
    /// The date the User was last updated
    pub updated_at: chrono::NaiveDateTime,
    /// The User's subscriber id
    pub email: String,
}

/// The User GraphQL type is the same as the database Model
pub type User = Model;

impl Model {
    /// An exact copy of this User.
    pub fn duplicate(&self) -> (copy: Self)
        ensures
            copy == *self,
    {
        Model {
            id: self.id.clone(),
            created_at: self.created_at,
            updated_at: self.updated_at,
            email: self.email.clone(),
        }
    }
}

impl Default for Model {
    /// A User with an empty id and email, created and updated now (each time read from the
    /// clock on its own).
    fn default() -> (user: Self)
        ensures
            user.id@ == Seq::<char>::empty(),
            user.email@ == Seq::<char>::empty(),
    {
        Self { id: String::new(), created_at: utc_now(), updated_at: utc_now(), email: String::new() }
    }
}

/// A wrapper around `Option<User>`
pub struct UserOption(pub Option<User>);

impl From<Option<Model>> for UserOption {
    fn from(data: Option<Model>) -> (wrapped: UserOption) {
        UserOption(data)
    }
}

impl vstd::std_specs::convert::FromSpecImpl<Option<Model>> for UserOption {
    open spec fn obeys_from_spec() -> bool {
        true
    }

    open spec fn from_spec(data: Option<Model>) -> UserOption {
        UserOption(data)
    }
}

impl From<UserOption> for Option<User> {
    fn from(user: UserOption) -> (unwrapped: Option<User>) {
        user.0
    }
}

impl vstd::std_specs::convert::FromSpecImpl<UserOption> for Option<User> {
    open spec fn obeys_from_spec() -> bool {
        true
    }

    open spec fn from_spec(user: UserOption) -> Option<User> {
        user.0
    }
}

/// Wrapping an optional User and unwrapping it again gives it back, and unwrapping a wrapper
/// and wrapping the result gives the same wrapper.
pub proof fn law_user_option_round_trip(user: Option<User>, wrapped: UserOption)
    ensures
        <Option<User> as vstd::std_specs::convert::FromSpec<UserOption>>::from_spec(
            <UserOption as vstd::std_specs::convert::FromSpec<Option<User>>>::from_spec(user),
        ) == user,
        <UserOption as vstd::std_specs::convert::FromSpec<Option<User>>>::from_spec(
            <Option<User> as vstd::std_specs::convert::FromSpec<UserOption>>::from_spec(wrapped),
        ) == wrapped,
{
}

} // verus!
