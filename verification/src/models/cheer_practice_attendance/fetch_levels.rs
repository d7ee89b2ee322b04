//! The forms in which a cheer practice attendance is returned: by identifier, and default.
use vstd::prelude::*;
use crate::ids::Uuid;
use crate::models::cheer_practice_attendance::db::DbCheerPracticeAttendance;

verus! {

/// An attendance by its identifier alone.
pub struct IdOnlyCheerPracticeAttendance {
    pub id: Uuid,
}

impl IdOnlyCheerPracticeAttendance {
    pub fn from<P>(attendance: DbCheerPracticeAttendance<P>) -> (r: Self)
        ensures
            r.id == attendance.id,
    {
        IdOnlyCheerPracticeAttendance { id: attendance.id }
    }
}

/// An attendance with its student (in the form `S` in which it was fetched) and practice
/// period (in the form `T`), and the presence (of the kind `P`) recorded.
pub struct DefaultCheerPracticeAttendance<S, T, P> {
    pub id: Uuid,
    pub student: S,
    pub practice_period: T,
    pub presence: Option<P>,
    pub presence_at_end: Option<P>,
    pub absence_reason: Option<String>,
    pub disabled: bool,
}

impl<S, T, P> DefaultCheerPracticeAttendance<S, T, P> {
    /// The default form of a stored attendance, with its student and practice period as
    /// fetched.
    pub fn from_relation(relation: DbCheerPracticeAttendance<P>, student: S, practice_period: T) -> (r: Self)
        ensures
            r.id == relation.id,
            r.student == student,
            r.practice_period == practice_period,
            r.presence == relation.presence,
            r.presence_at_end == relation.presence_at_end,
            r.absence_reason == relation.absence_reason,
            r.disabled == relation.disabled,
    {
        DefaultCheerPracticeAttendance {
            id: relation.id,
            student,
            practice_period,
            presence: relation.presence,
            presence_at_end: relation.presence_at_end,
            absence_reason: relation.absence_reason,
            disabled: relation.disabled,
        }
    }
}

} // verus!
