use gql_gateway::graphql::{UsersMutationRoot, UsersQueryRoot, UsersSubscriptionRoot};
use gql_gateway::users::User;

#[test]
fn select_users_returns_placeholder() {
    let users = UsersQueryRoot.select_users(Some(10), None);
    assert_eq!(users.len(), 1);
    assert_eq!(users[0].id(), 0);
    assert_eq!(users[0].email(), "user@example.com");
}

#[test]
fn update_user_echoes_arguments() {
    let u = UsersMutationRoot.update_user(42, "a@b.c".to_string());
    assert_eq!(u, User { id: 42, email: "a@b.c".to_string() });
}

#[test]
fn subscription_event_is_placeholder() {
    let u = UsersSubscriptionRoot.select_user_by_id_event("9");
    assert_eq!(u, User::sample());
    assert_eq!(u.email(), "user@example.com");
}
