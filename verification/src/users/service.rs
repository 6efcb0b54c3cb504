//! The decisions of the users service and of the `User` dataloader. The service reads and
//! writes the database; what it answers from what the database gave is decided here.

use vstd::prelude::*;

use super::model::User;

verus! {

/// The message of a `delete` whose User does not exist: `Unable to find User with id: `
/// followed by the id.
pub open spec fn missing_user_message(id: Seq<char>) -> Seq<char> {
    "Unable to find User with id: "@ + id
}

/// The User that `delete` goes on to remove, or, when the lookup by id found none, the
/// error that `delete` answers with.
pub fn user_to_delete(found: Option<User>, id: &str) -> (res: Result<User, String>)
    ensures
        match found {
            Some(user) => res == Ok::<User, String>(user),
            None => res matches Err(message) && message@ == missing_user_message(id@),
        },
{
    match found {
        Some(user) => Ok(user),
        None => Err(String::from_str("Unable to find User with id: ").concat(id)),
    }
}

/// The entries of the dataloader's answer, in the order in which the service returned the
/// Users: each User under its own id (where two share an id, the map that the loader builds
/// keeps the later).
pub fn users_by_id(users: Vec<User>) -> (entries: Vec<(String, User)>)
    ensures
        entries.len() == users.len(),
        forall|i: int| 0 <= i < users.len() ==> #[trigger] entries[i] == (users[i].id, users[i]),
{
    let mut entries: Vec<(String, User)> = Vec::new();
    let mut i: usize = 0;
    while i < users.len()
        invariant
            i <= users.len(),
            entries.len() == i,
            forall|j: int| 0 <= j < i ==> #[trigger] entries[j] == (users[j].id, users[j]),
        decreases users.len() - i,
    {
        let user = users[i].duplicate();
        entries.push((user.id.clone(), user));
        i += 1;
    }
    entries
}

} // verus!
