//! The GraphQL roots and their resolvers. The resolvers serve placeholder
//! data until a store is wired in.
use vstd::prelude::*;
use crate::users::{User, sample_email};

verus! {

#[derive(Clone, Copy, Debug, Default)]
pub struct UsersQueryRoot;

#[derive(Clone, Copy, Debug, Default)]
pub struct UsersMutationRoot;

#[derive(Clone, Copy, Debug, Default)]
pub struct UsersSubscriptionRoot;

#[derive(Clone, Copy, Debug, Default)]
pub struct QueryRoot(pub UsersQueryRoot);

#[derive(Clone, Copy, Debug, Default)]
pub struct MutationRoot(pub UsersMutationRoot);

#[derive(Clone, Copy, Debug, Default)]
pub struct SubscriptionRoot(pub UsersSubscriptionRoot);

impl UsersQueryRoot {
    /// The users in a page; for now the placeholder user alone, whatever the
    /// page asked for.
    pub fn select_users(&self, limit: Option<i64>, offset: Option<i64>) -> (r: Vec<User>)
        ensures
            r@.len() == 1,
            r@[0].id == 0,
            r@[0].email@ == sample_email(),
    {
        let mut users: Vec<User> = Vec::new();
        users.push(User::sample());
        users
    }
}

impl UsersMutationRoot {
    /// The user as updated: the given id with the given address.
    pub fn update_user(&self, user_id: i64, email: String) -> (r: User)
        ensures
            r.id == user_id,
            r.email == email,
    {
        User { id: user_id, email }
    }
}

impl UsersSubscriptionRoot {
    /// The record sent on each tick of a subscription to one user; for now
    /// the placeholder user, whatever the id.
    pub fn select_user_by_id_event(&self, id: &str) -> (r: User)
        ensures
            r.id == 0,
            r.email@ == sample_email(),
    {
        User::sample()
    }
}

} // verus!
