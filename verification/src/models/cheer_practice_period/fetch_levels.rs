//! The forms in which a cheer practice period is returned: by identifier, default (with the
//! identifiers of its classrooms) and detailed (with its classrooms and their attendances).
use vstd::prelude::*;
use crate::ids::{Date, Time, Uuid};
use crate::models::cheer_practice_period::db::DbCheerPracticePeriod;

verus! {

/// A cheer practice period by its identifier alone.
pub struct IdOnlyCheerPracticePeriod {
    pub id: Uuid,
}

impl IdOnlyCheerPracticePeriod {
    pub fn from(period: DbCheerPracticePeriod) -> (r: Self)
        ensures
            r.id == period.id,
    {
        IdOnlyCheerPracticePeriod { id: period.id }
    }
}

/// A cheer practice period with the identifiers of the classrooms that take part.
pub struct DefaultCheerPracticePeriod {
    pub id: Uuid,
    pub date: Date,
    pub start_time: Time,
    pub end_time: Time,
    pub delay: Option<i64>,
    pub note: Option<String>,
    pub classrooms: Vec<Uuid>,
}

impl DefaultCheerPracticePeriod {
    /// The default form of a stored period, with the identifiers of its classrooms as
    /// fetched.
    pub fn from_relation(relation: DbCheerPracticePeriod, classroom_ids: Vec<Uuid>) -> (r: Self)
        ensures
            r.id == relation.id,
            r.date == relation.date,
            r.start_time == relation.start_time,
            r.end_time == relation.end_time,
            r.delay == relation.delay,
            r.note == relation.note,
            r.classrooms@ == classroom_ids@,
    {
        DefaultCheerPracticePeriod {
            id: relation.id,
            date: relation.date,
            start_time: relation.start_time,
            end_time: relation.end_time,
            delay: relation.delay,
            note: relation.note,
            classrooms: classroom_ids,
        }
    }
}

/// A classroom (in the form `C` in which it was fetched) and its attendances at a practice
/// (in the form `A`).
pub struct ClassroomWCheerAttendance<C, A> {
    pub classroom: C,
    pub attendances: Vec<A>,
}

/// A cheer practice period with each of its classrooms and their attendances.
pub struct DetailedCheerPracticePeriod<C, A> {
    pub id: Uuid,
    pub date: Date,
    pub start_time: Time,
    pub end_time: Time,
    pub delay: Option<i64>,
    pub note: Option<String>,
    pub classrooms: Vec<ClassroomWCheerAttendance<C, A>>,
}

impl<C, A> DetailedCheerPracticePeriod<C, A> {
    /// The detailed form of a stored period: the classrooms as fetched are paired, in
    /// order, with the attendances fetched for each; a pair is formed only as long as both
    /// lists last.
    pub fn from_relation(relation: DbCheerPracticePeriod, classrooms: Vec<C>, attendances: Vec<Vec<A>>) -> (r: Self)
        ensures
            r.id == relation.id,
            r.date == relation.date,
            r.start_time == relation.start_time,
            r.end_time == relation.end_time,
            r.delay == relation.delay,
            r.note == relation.note,
            r.classrooms@.len() == (if classrooms@.len() <= attendances@.len() {
                classrooms@.len()
            } else {
                attendances@.len()
            }),
            forall|i: int| 0 <= i < r.classrooms@.len() ==> {
                &&& (#[trigger] r.classrooms@[i]).classroom == classrooms@[i]
                &&& r.classrooms@[i].attendances == attendances@[i]
            },
    {
        let n = if classrooms.len() <= attendances.len() { classrooms.len() } else { attendances.len() };
        let ghost cs = classrooms@;
        let ghost atts = attendances@;
        let mut rest_c = classrooms;
        let mut rest_a = attendances;
        let mut paired: Vec<ClassroomWCheerAttendance<C, A>> = Vec::new();
        let mut i: usize = 0;
        while i < n
            invariant
                n <= cs.len(),
                n <= atts.len(),
                i <= n,
                rest_c@ == cs.subrange(i as int, cs.len() as int),
                rest_a@ == atts.subrange(i as int, atts.len() as int),
                paired@.len() == i,
                forall|k: int| 0 <= k < i ==> {
                    &&& (#[trigger] paired@[k]).classroom == cs[k]
                    &&& paired@[k].attendances == atts[k]
                },
            decreases n - i,
        {
            let classroom = rest_c.remove(0);
            let class_attendances = rest_a.remove(0);
            paired.push(ClassroomWCheerAttendance { classroom, attendances: class_attendances });
            assert(rest_c@ =~= cs.subrange(i + 1, cs.len() as int));
            assert(rest_a@ =~= atts.subrange(i + 1, atts.len() as int));
            i = i + 1;
        }
        DetailedCheerPracticePeriod {
            id: relation.id,
            date: relation.date,
            start_time: relation.start_time,
            end_time: relation.end_time,
            delay: relation.delay,
            note: relation.note,
            classrooms: paired,
        }
    }
}

} // verus!
