//! The `User` domain: the model, the resolvers' decisions and the service's decisions.

use chrono::NaiveDate;

use xor_api::role_grants::model::Model as RoleGrant;
use xor_api::users::model::{Model, User, UserOption};
use xor_api::users::mutations::{CreateUserInput, MutateUserResult};
use xor_api::users::resolver::{GetOrCreateStep, ResolverError, UsersMutation, UsersQuery};
use xor_api::users::service::{user_to_delete, users_by_id};

fn user(id: &str, email: &str) -> User {
    let at = NaiveDate::from_ymd_opt(2022, 8, 1).unwrap().and_hms_opt(12, 30, 0).unwrap();
    Model { id: id.to_string(), created_at: at, updated_at: at, email: email.to_string() }
}

#[test]
fn default_user_has_empty_id_and_email() {
    let user = Model::default();
    assert_eq!(user.id, "");
    assert_eq!(user.email, "");
    assert!(user.created_at <= user.updated_at);
}

#[test]
fn duplicate_is_equal() {
    let first = user("u1", "a@example.com");
    assert_eq!(first.duplicate(), first);
}

#[test]
fn user_option_round_trip() {
    let wrapped = UserOption::from(Some(user("u1", "a@example.com")));
    let back: Option<User> = wrapped.into();
    assert_eq!(back, Some(user("u1", "a@example.com")));
    let none: Option<User> = UserOption::from(None).into();
    assert_eq!(none, None);
}

#[test]
fn role_grant_model_is_empty() {
    assert_eq!(RoleGrant::default(), RoleGrant {});
}

#[test]
fn current_user_is_the_context_user() {
    let query = UsersQuery::default();
    assert_eq!(query.get_current_user(&Some(user("u1", "a@example.com"))), Some(user("u1", "a@example.com")));
    assert_eq!(query.get_current_user(&None), None);
}

#[test]
fn existing_user_is_returned_without_creating() {
    let mutation = UsersMutation::default();
    let input = CreateUserInput { email: "new@example.com".to_string() };
    let step = mutation.get_or_create_current_user(&Some(user("u1", "a@example.com")), input);
    assert_eq!(step, GetOrCreateStep::Existing(MutateUserResult { user: Some(user("u1", "a@example.com")) }));
}

#[test]
fn missing_user_is_created_with_input_email() {
    let mutation = UsersMutation::default();
    let input = CreateUserInput { email: "new@example.com".to_string() };
    let step = mutation.get_or_create_current_user(&None, input);
    assert_eq!(step, GetOrCreateStep::Create { email: "new@example.com".to_string() });
}

#[test]
fn created_user_is_the_result() {
    let mutation = UsersMutation::default();
    let created: Result<User, String> = Ok(user("u2", "new@example.com"));
    assert_eq!(
        mutation.created_user_result(created),
        Ok(MutateUserResult { user: Some(user("u2", "new@example.com")) })
    );
}

#[test]
fn failed_creation_is_an_internal_error() {
    let mutation = UsersMutation::default();
    let created: Result<User, String> = Err("connection refused".to_string());
    assert_eq!(
        mutation.created_user_result(created),
        Err(ResolverError { message: "Error while creating User".to_string(), status: 500 })
    );
}

#[test]
fn delete_of_found_user_goes_on() {
    assert_eq!(user_to_delete(Some(user("u1", "a@example.com")), "u1"), Ok(user("u1", "a@example.com")));
}

#[test]
fn delete_of_missing_user_is_refused() {
    assert_eq!(user_to_delete(None, "u9"), Err("Unable to find User with id: u9".to_string()));
}

#[test]
fn loaded_users_are_keyed_by_id() {
    let users = vec![user("u1", "a@example.com"), user("u2", "b@example.com")];
    let entries = users_by_id(users.clone());
    assert_eq!(entries, vec![("u1".to_string(), users[0].clone()), ("u2".to_string(), users[1].clone())]);
    assert!(users_by_id(vec![]).is_empty());
}

#[test]
fn create_user_input_defaults_to_empty_email() {
    assert_eq!(CreateUserInput::default().email, "");
    assert_eq!(MutateUserResult::default().user, None);
}
