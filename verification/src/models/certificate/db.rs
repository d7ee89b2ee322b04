//! Certificates as stored.
use vstd::prelude::*;
use crate::ids::{Timestamp, Uuid};
use crate::models::common::enums::SubmissionStatus;

verus! {

/// A certificate awarded to a student in an academic year: its kind (of the type `T`), its
/// detail, the order in which it is received and the seat at the ceremony, and the
/// student's reply to the ceremony's invitation.
pub struct DbCertificate<T> {
    pub id: Uuid,
    pub created_at: Option<Timestamp>,
    pub student_id: Uuid,
    pub certificate_type: T,
    pub certificate_detail: String,
    pub year: i64,
    pub receiving_order_number: Option<i64>,
    pub seat_code: Option<String>,
    pub rsvp_status: Option<SubmissionStatus>,
}

} // verus!
