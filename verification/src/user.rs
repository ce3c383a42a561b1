//! The user record.

use vstd::prelude::*;

verus! {

/// What a [`User`] holds, as mathematical text.
pub struct UserView {
    pub id: Seq<char>,
    pub name: Seq<char>,
    pub email: Seq<char>,
}

/// One entry of the directory. `id` is the primary key; `email` is kept as
/// given, without validation.
#[derive(Debug)]
pub struct User {
    pub id: String,
    pub name: String,
    pub email: String,
}

impl View for User {
    type V = UserView;

    open spec fn view(&self) -> UserView {
        UserView { id: self.id@, name: self.name@, email: self.email@ }
    }
}

impl User {
    /// Builds a record from its three fields.
    pub fn new(id: String, name: String, email: String) -> (user: User)
        ensures
            user.id == id,
            user.name == name,
            user.email == email,
    {
        User { id, name, email }
    }
}

impl Clone for User {
    fn clone(&self) -> (copy: User)
        ensures
            copy == *self,
    {
        User { id: self.id.clone(), name: self.name.clone(), email: self.email.clone() }
    }
}

impl PartialEq for User {
    fn eq(&self, other: &User) -> (same: bool) {
        self.id == other.id && self.name == other.name && self.email == other.email
    }
}

impl vstd::std_specs::cmp::PartialEqSpecImpl for User {
    open spec fn obeys_eq_spec() -> bool {
        true
    }

    open spec fn eq_spec(&self, other: &User) -> bool {
        self@ == other@
    }
}

impl Eq for User {}

} // verus!
