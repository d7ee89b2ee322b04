//! Cheer practice attendances as stored.
use vstd::prelude::*;
use crate::common::requests::FilterConfig;
use crate::ids::{Timestamp, Uuid};
use crate::models::cheer_practice_attendance::request::QueryableCheerPracticeAttendance;
use crate::query::{fragment_views, render_where, SqlFragment, SqlFragmentView, SqlWhereClauseView};

verus! {

/// The attendance of a student at a practice period, as stored: who checked it, the
/// student's presence at the start and at the end (of the kind `P`), the reason of an
/// absence, and whether the record is disabled.
pub struct DbCheerPracticeAttendance<P> {
    pub id: Uuid,
    pub created_at: Timestamp,
    pub practice_period_id: Uuid,
    pub student_id: Uuid,
    pub checker_id: Option<Uuid>,
    pub presence: Option<P>,
    pub presence_at_end: Option<P>,
    pub absence_reason: Option<String>,
    pub disabled: bool,
}

/// The pieces that an attendance filter adds to a query: the `WHERE` clause of its
/// criteria, if any.
pub open spec fn attendance_shared_query(filter: Option<FilterConfig<QueryableCheerPracticeAttendance>>) -> Seq<SqlFragmentView> {
    match filter {
        Some(f) => match f.data {
            Some(d) => render_where(SqlWhereClauseView { with_keyword: true, conditions: d.where_conditions() }),
            None => Seq::<SqlFragmentView>::empty(),
        },
        None => Seq::<SqlFragmentView>::empty(),
    }
}

impl<P> DbCheerPracticeAttendance<P> {
    /// Appends the conditions of a filter to a query.
    pub fn build_shared_query(query: &mut Vec<SqlFragment>, filter: Option<FilterConfig<QueryableCheerPracticeAttendance>>)
        ensures
            fragment_views(final(query)@) == fragment_views(old(query)@) + attendance_shared_query(filter),
    {
        if let Some(filter) = filter {
            if let Some(data) = filter.data {
                data.to_where_clause().append_into_query_builder(query);
                return;
            }
        }
        assert(fragment_views(query@) =~= fragment_views(old(query)@) + attendance_shared_query(filter));
    }
}

} // verus!
