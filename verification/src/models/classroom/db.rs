//! Classrooms as stored.
use vstd::prelude::*;
use crate::ids::{Timestamp, Uuid};

verus! {

/// A classroom as stored: its number, academic year and main room.
pub struct DbClassroom {
    pub id: Uuid,
    pub created_at: Option<Timestamp>,
    pub number: i64,
    pub year: i64,
    pub main_room: Option<String>,
}

/// A classroom and the class number of a student in it.
pub struct ClassroomWClassNo {
    pub id: Uuid,
    pub class_no: i64,
}

} // verus!
