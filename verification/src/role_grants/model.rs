//! The `RoleGrant` model.

use vstd::prelude::*;

verus! {

/// The `RoleGrant` GraphQL and Database Model
#[derive(Clone, Debug, Default, Eq, PartialEq)]
pub struct Model {}

} // verus!
