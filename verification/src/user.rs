//! Who takes part in a conversation.
use vstd::prelude::*;

verus! {

/// A participant, as the peers name each other.
#[derive(Debug, PartialEq, Eq)]
pub struct User {
    pub username: String,
    pub email: String,
    /// A hash that identifies the user.
    pub user_id: String,
}

/// The texts of a `User`.
pub struct UserView {
    pub username: Seq<char>,
    pub email: Seq<char>,
    pub user_id: Seq<char>,
}

impl View for User {
    type V = UserView;

    open spec fn view(&self) -> UserView {
        UserView { username: self.username@, email: self.email@, user_id: self.user_id@ }
    }
}

impl User {
    /// A user with the given name, address and identifier.
    pub fn new(username: String, email: String, user_id: String) -> (r: Self)
        ensures
            r.username == username,
            r.email == email,
            r.user_id == user_id,
            r@ == (UserView { username: username@, email: email@, user_id: user_id@ }),
    {
        User { username, email, user_id }
    }
}

impl Clone for User {
    fn clone(&self) -> (r: Self)
        ensures
            r == *self,
            r@ == self@,
    {
        User {
            username: self.username.clone(),
            email: self.email.clone(),
            user_id: self.user_id.clone(),
        }
    }
}

/// The view of a user who may be missing.
pub open spec fn user_view(user: Option<User>) -> Option<UserView> {
    match user {
        Some(u) => Some(u@),
        None => None,
    }
}

} // verus!
