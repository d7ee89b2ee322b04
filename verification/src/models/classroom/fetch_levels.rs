//! The forms in which a classroom is returned: by identifier, and compact.
use vstd::prelude::*;
use crate::ids::Uuid;
use crate::models::classroom::db::DbClassroom;

verus! {

/// A classroom by its identifier alone.
pub struct IdOnlyClassroom {
    pub id: Uuid,
}

impl IdOnlyClassroom {
    pub fn from(classroom: DbClassroom) -> (r: Self)
        ensures
            r.id == classroom.id,
    {
        IdOnlyClassroom { id: classroom.id }
    }
}

/// A classroom in brief: its number and room.
pub struct CompactClassroom {
    pub id: Uuid,
    pub number: i64,
    pub room: Option<String>,
}

impl CompactClassroom {
    pub fn from(classroom: DbClassroom) -> (r: Self)
        ensures
            r.id == classroom.id,
            r.number == classroom.number,
            r.room == classroom.main_room,
    {
        CompactClassroom { id: classroom.id, number: classroom.number, room: classroom.main_room }
    }
}

} // verus!
