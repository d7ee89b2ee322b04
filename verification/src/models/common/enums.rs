//! The status of a submission awaiting approval.
use vstd::prelude::*;
use crate::text::str_eq;

verus! {

/// Whether a submission (a club membership request, an RSVP) is pending, approved or declined.
#[derive(Clone, Copy, Debug, PartialEq, Eq, Structural)]
pub enum SubmissionStatus {
    Pending,
    Approved,
    Declined,
}

impl SubmissionStatus {
    /// The database and wire name of the status.
    pub open spec fn name(self) -> Seq<char> {
        match self {
            SubmissionStatus::Pending => "pending"@,
            SubmissionStatus::Approved => "approved"@,
            SubmissionStatus::Declined => "declined"@,
        }
    }

    /// The status that a database or wire name denotes, if any.
    pub open spec fn from_name(s: Seq<char>) -> Option<SubmissionStatus> {
        if s == "pending"@ {
            Some(SubmissionStatus::Pending)
        } else if s == "approved"@ {
            Some(SubmissionStatus::Approved)
        } else if s == "declined"@ {
            Some(SubmissionStatus::Declined)
        } else {
            None
        }
    }

    pub fn to_string(&self) -> (r: String)
        ensures
            r@ == self.name(),
    {
        match self {
            SubmissionStatus::Pending => String::from_str("pending"),
            SubmissionStatus::Approved => String::from_str("approved"),
            SubmissionStatus::Declined => String::from_str("declined"),
        }
    }

    /// Reads a status from its name; none for any other text.
    pub fn parse(s: &str) -> (r: Option<SubmissionStatus>)
        ensures
            r == SubmissionStatus::from_name(s@),
    {
        if str_eq(s, "pending") {
            Some(SubmissionStatus::Pending)
        } else if str_eq(s, "approved") {
            Some(SubmissionStatus::Approved)
        } else if str_eq(s, "declined") {
            Some(SubmissionStatus::Declined)
        } else {
            None
        }
    }
}

/// Every status is read back from its name.
pub proof fn lemma_submission_status_round_trip(t: SubmissionStatus)
    ensures
        SubmissionStatus::from_name(t.name()) == Some(t),
{
    reveal_strlit("pending");
    reveal_strlit("approved");
    reveal_strlit("declined");
    match t {
        SubmissionStatus::Pending => {},
        SubmissionStatus::Approved => {
            assert("approved"@.len() != "pending"@.len());
        },
        SubmissionStatus::Declined => {
            assert("declined"@.len() != "pending"@.len());
            assert("declined"@[0] != "approved"@[0]);
        },
    }
}

/// A name that is read as a status is that status's name.
pub proof fn lemma_submission_status_parse_gives_name(s: Seq<char>)
    ensures
        SubmissionStatus::from_name(s) matches Some(t) ==> t.name() == s,
{
}

} // verus!
