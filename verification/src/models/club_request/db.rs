//! Club membership requests as stored.
use vstd::prelude::*;
use crate::common::requests::FilterConfig;
use crate::ids::{Timestamp, Uuid};
use crate::models::common::enums::SubmissionStatus;
use crate::models::club_request::request::QueryableClubRequest;
use crate::query::{fragment_views, render_where, SqlFragment, SqlFragmentView, SqlWhereClauseView};

verus! {

/// A request of a student to join a club in a year, and its status.
pub struct DbClubRequest {
    pub id: Uuid,
    pub created_at: Option<Timestamp>,
    pub club_id: Uuid,
    pub year: Option<i64>,
    pub membership_status: SubmissionStatus,
    pub student_id: Uuid,
}

impl DbClubRequest {
    /// The pieces that a filter adds to a query: the `WHERE` clause of its criteria, if any.
    pub open spec fn shared_query(filter: Option<FilterConfig<QueryableClubRequest>>) -> Seq<SqlFragmentView> {
        match filter {
            Some(f) => match f.data {
                Some(d) => render_where(SqlWhereClauseView { with_keyword: true, conditions: d.where_conditions() }),
                None => Seq::<SqlFragmentView>::empty(),
            },
            None => Seq::<SqlFragmentView>::empty(),
        }
    }

    /// Appends the conditions of a filter to a query.
    pub fn build_shared_query(query: &mut Vec<SqlFragment>, filter: Option<FilterConfig<QueryableClubRequest>>)
        ensures
            fragment_views(final(query)@) == fragment_views(old(query)@) + Self::shared_query(filter),
    {
        let ghost spec_filter = filter;
        if let Some(filter) = filter {
            if let Some(data) = filter.data {
                data.to_where_clause().append_into_query_builder(query);
                return;
            }
        }
        assert(fragment_views(query@) =~= fragment_views(old(query)@) + Self::shared_query(spec_filter));
    }
}

} // verus!
