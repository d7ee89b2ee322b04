//! The roles of a signed-in user.
use vstd::prelude::*;
use crate::text::str_eq;

verus! {

/// Whether a user is a teacher or a student.
#[derive(Clone, Copy, Debug, PartialEq, Eq, Structural)]
pub enum UserRoles {
    Teacher,
    Student,
}

impl UserRoles {
    /// The stored form of the role: its name in double quotes.
    pub open spec fn stored(self) -> Seq<char> {
        match self {
            UserRoles::Teacher => "\"teacher\""@,
            UserRoles::Student => "\"student\""@,
        }
    }

    pub fn to_string(&self) -> (r: String)
        ensures
            r@ == self.stored(),
    {
        match self {
            UserRoles::Teacher => String::from_str("\"teacher\""),
            UserRoles::Student => String::from_str("\"student\""),
        }
    }

    /// Reads a role from its stored form; any text other than the teacher's denotes a
    /// student.
    pub fn from_string(role: &str) -> (r: UserRoles)
        ensures
            r == (if role@ == "\"teacher\""@ { UserRoles::Teacher } else { UserRoles::Student }),
    {
        if str_eq(role, "\"teacher\"") {
            UserRoles::Teacher
        } else {
            UserRoles::Student
        }
    }

    fn new(role: &str) -> (r: UserRoles)
        ensures
            r == (if role@ == "\"teacher\""@ { UserRoles::Teacher } else { UserRoles::Student }),
    {
        UserRoles::from_string(role)
    }
}

/// Every role is read back from its stored form.
pub proof fn lemma_user_role_round_trip(r: UserRoles)
    ensures
        (if r.stored() == "\"teacher\""@ { UserRoles::Teacher } else { UserRoles::Student }) == r,
{
    reveal_strlit("\"teacher\"");
    reveal_strlit("\"student\"");
    assert("\"student\""@[1] != "\"teacher\""@[1]);
}

} // verus!
