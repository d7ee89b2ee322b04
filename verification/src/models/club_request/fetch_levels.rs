//! The default form of a club membership request.
use vstd::prelude::*;
use crate::ids::{Timestamp, Uuid};
use crate::models::club_request::db::DbClubRequest;
use crate::models::common::enums::SubmissionStatus;

verus! {

/// A membership request with its club (in the form `K` in which it was fetched) and
/// student (in the form `S`).
pub struct DefaultClubRequest<K, S> {
    pub id: Uuid,
    pub created_at: Option<Timestamp>,
    pub club: K,
    pub student: S,
    pub year: Option<i64>,
    pub membership_status: SubmissionStatus,
}

impl<K, S> DefaultClubRequest<K, S> {
    /// The default form of a stored request, with its club and student as fetched.
    pub fn from_relation(relation: DbClubRequest, club: K, student: S) -> (r: Self)
        ensures
            r.id == relation.id,
            r.created_at == relation.created_at,
            r.club == club,
            r.student == student,
            r.year == relation.year,
            r.membership_status == relation.membership_status,
    {
        DefaultClubRequest {
            id: relation.id,
            created_at: relation.created_at,
            club,
            student,
            year: relation.year,
            membership_status: relation.membership_status,
        }
    }
}

} // verus!
