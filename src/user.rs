use vstd::prelude::*;

verus! {

/// One stored user, as read from a row of the `users` table.
#[derive(Debug, Clone)]
pub struct User {
    pub id: i32,
    pub username: String,
}

/// The mathematical content of a [`User`]: its key and its name.
pub struct UserRecord {
    pub id: int,
    pub username: Seq<char>,
}

impl View for User {
    type V = UserRecord;

    open spec fn view(&self) -> UserRecord {
        UserRecord { id: self.id as int, username: self.username@ }
    }
}

/// The records held by a sequence of users, position by position.
pub open spec fn records(users: Seq<User>) -> Seq<UserRecord> {
    users.map_values(|u: User| u@)
}

impl User {
    /// A user with the given key and name.
    pub fn new(id: i32, username: String) -> (r: User)
        ensures
            r@ == (UserRecord { id: id as int, username: username@ }),
    {
        User { id, username }
    }
}

impl PartialEq for User {
    fn eq(&self, other: &User) -> (r: bool)
        ensures
            r == (self@ == other@),
    {
        self.id == other.id && self.username == other.username
    }
}

impl vstd::std_specs::cmp::PartialEqSpecImpl for User {
    open spec fn obeys_eq_spec() -> bool {
        true
    }

    open spec fn eq_spec(&self, other: &User) -> bool {
        self@ == other@
    }
}

} // verus!
