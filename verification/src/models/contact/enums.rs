//! The kinds of contact information.
use vstd::prelude::*;
use crate::text::str_eq;

verus! {

/// The kind of a contact entry.
#[derive(Clone, Copy, Debug, PartialEq, Eq, Structural)]
pub enum ContactType {
    Phone,
    Email,
    Facebook,
    Line,
    Instagram,
    Website,
    Discord,
    Other,
}

impl ContactType {
    /// The database and wire name of the kind.
    pub open spec fn name(self) -> Seq<char> {
        match self {
            ContactType::Phone => "phone"@,
            ContactType::Email => "email"@,
            ContactType::Facebook => "facebook"@,
            ContactType::Line => "line"@,
            ContactType::Instagram => "instagram"@,
            ContactType::Website => "website"@,
            ContactType::Discord => "discord"@,
            ContactType::Other => "other"@,
        }
    }

    /// The kind that a database or wire name denotes, if any.
    pub open spec fn from_name(s: Seq<char>) -> Option<ContactType> {
        if s == "phone"@ {
            Some(ContactType::Phone)
        } else if s == "email"@ {
            Some(ContactType::Email)
        } else if s == "facebook"@ {
            Some(ContactType::Facebook)
        } else if s == "line"@ {
            Some(ContactType::Line)
        } else if s == "instagram"@ {
            Some(ContactType::Instagram)
        } else if s == "website"@ {
            Some(ContactType::Website)
        } else if s == "discord"@ {
            Some(ContactType::Discord)
        } else if s == "other"@ {
            Some(ContactType::Other)
        } else {
            None
        }
    }

    pub fn to_string(&self) -> (r: String)
        ensures
            r@ == self.name(),
    {
        match self {
            ContactType::Phone => String::from_str("phone"),
            ContactType::Email => String::from_str("email"),
            ContactType::Facebook => String::from_str("facebook"),
            ContactType::Line => String::from_str("line"),
            ContactType::Instagram => String::from_str("instagram"),
            ContactType::Website => String::from_str("website"),
            ContactType::Discord => String::from_str("discord"),
            ContactType::Other => String::from_str("other"),
        }
    }

    /// Reads a kind from its name; none for any other text.
    pub fn parse(s: &str) -> (r: Option<ContactType>)
        ensures
            r == ContactType::from_name(s@),
    {
        if str_eq(s, "phone") {
            Some(ContactType::Phone)
        } else if str_eq(s, "email") {
            Some(ContactType::Email)
        } else if str_eq(s, "facebook") {
            Some(ContactType::Facebook)
        } else if str_eq(s, "line") {
            Some(ContactType::Line)
        } else if str_eq(s, "instagram") {
            Some(ContactType::Instagram)
        } else if str_eq(s, "website") {
            Some(ContactType::Website)
        } else if str_eq(s, "discord") {
            Some(ContactType::Discord)
        } else if str_eq(s, "other") {
            Some(ContactType::Other)
        } else {
            None
        }
    }
}

/// Every kind is read back from its name.
pub proof fn lemma_contact_type_round_trip(t: ContactType)
    ensures
        ContactType::from_name(t.name()) == Some(t),
{
    reveal_strlit("phone");
    reveal_strlit("email");
    reveal_strlit("facebook");
    reveal_strlit("line");
    reveal_strlit("instagram");
    reveal_strlit("website");
    reveal_strlit("discord");
    reveal_strlit("other");
    match t {
        ContactType::Phone => {},
        ContactType::Email => {
            assert("email"@[0] != "phone"@[0]);
        },
        ContactType::Facebook => {
            assert("facebook"@.len() != "phone"@.len());
            assert("facebook"@.len() != "email"@.len());
        },
        ContactType::Line => {
            assert("line"@.len() != "phone"@.len());
            assert("line"@.len() != "email"@.len());
            assert("line"@.len() != "facebook"@.len());
        },
        ContactType::Instagram => {
            assert("instagram"@.len() != "phone"@.len());
            assert("instagram"@.len() != "email"@.len());
            assert("instagram"@.len() != "facebook"@.len());
            assert("instagram"@.len() != "line"@.len());
        },
        ContactType::Website => {
            assert("website"@.len() != "phone"@.len());
            assert("website"@.len() != "email"@.len());
            assert("website"@.len() != "facebook"@.len());
            assert("website"@.len() != "line"@.len());
            assert("website"@.len() != "instagram"@.len());
        },
        ContactType::Discord => {
            assert("discord"@.len() != "phone"@.len());
            assert("discord"@.len() != "email"@.len());
            assert("discord"@.len() != "facebook"@.len());
            assert("discord"@.len() != "line"@.len());
            assert("discord"@.len() != "instagram"@.len());
            assert("discord"@[0] != "website"@[0]);
        },
        ContactType::Other => {
            assert("other"@[0] != "phone"@[0]);
            assert("other"@[0] != "email"@[0]);
            assert("other"@.len() != "facebook"@.len());
            assert("other"@.len() != "line"@.len());
            assert("other"@.len() != "instagram"@.len());
            assert("other"@.len() != "website"@.len());
            assert("other"@.len() != "discord"@.len());
        },
    }
}

/// A name that is read as a kind is that kind's name.
pub proof fn lemma_contact_type_parse_gives_name(s: Seq<char>)
    ensures
        ContactType::from_name(s) matches Some(t) ==> t.name() == s,
{
}

} // verus!
