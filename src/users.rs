//! The user record served by the API.
use vstd::prelude::*;

verus! {

#[derive(Clone, Debug, PartialEq, Eq)]
pub struct User {
    pub id: i64,
    pub email: String,
}

/// The e-mail address of the placeholder user that the resolvers serve.
pub open spec fn sample_email() -> Seq<char> {
    "user@example.com"@
}

impl User {
    pub fn id(&self) -> (r: i64)
        ensures
            r == self.id,
    {
        self.id
    }

    pub fn email(&self) -> (r: &str)
        ensures
            r@ == self.email@,
    {
        self.email.as_str()
    }

    /// The placeholder user: id 0, `user@example.com`.
    pub fn sample() -> (r: User)
        ensures
            r.id == 0,
            r.email@ == sample_email(),
    {
        User { id: 0, email: String::from_str("user@example.com") }
    }
}

} // verus!
