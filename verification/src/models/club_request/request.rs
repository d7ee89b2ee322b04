//! Filtering and sorting of club membership requests.
use vstd::prelude::*;
use crate::common::requests::Sortable;
use crate::ids::Uuid;
use crate::models::common::enums::SubmissionStatus;
use crate::query::{QueryParamView, present, SqlFragmentView, SqlWhereClause, SqlWhereClauseView, int_param, int_view, status_param, status_view, uuids_param, uuids_view, when_compared, when_wrapped};

verus! {

/// Criteria on club membership requests; each present criterion adds one condition.
pub struct QueryableClubRequest {
    pub ids: Option<Vec<Uuid>>,
    pub club_ids: Option<Vec<Uuid>>,
    pub student_ids: Option<Vec<Uuid>>,
    pub membership_status: Option<SubmissionStatus>,
    pub year: Option<i64>,
}

impl QueryableClubRequest {
    /// The conditions of the criteria, in the order of the fields.
    pub open spec fn where_conditions(self) -> Seq<Seq<SqlFragmentView>> {
        when_wrapped(uuids_view(self.ids), "id = ANY(", ")")
        + when_wrapped(uuids_view(self.club_ids), "club_id = ANY(", ")")
        + when_wrapped(uuids_view(self.student_ids), "student_id = ANY(", ")")
        + when_compared(status_view(self.membership_status), "membership_status = ")
        + when_compared(int_view(self.year), "year = ")
    }

    /// The `WHERE` clause (with its keyword) of the criteria.
    pub fn to_where_clause(self) -> (r: SqlWhereClause)
        ensures
            r@ == (SqlWhereClauseView { with_keyword: true, conditions: self.where_conditions() }),
    {
        let ghost spec_self = self;
        let QueryableClubRequest { ids, club_ids, student_ids, membership_status, year } = self;
        let mut wc = SqlWhereClause::new();
        wc.push_wrapped(uuids_param(ids), "id = ANY(", ")");
        wc.push_wrapped(uuids_param(club_ids), "club_id = ANY(", ")");
        wc.push_wrapped(uuids_param(student_ids), "student_id = ANY(", ")");
        wc.push_compared(status_param(membership_status), "membership_status = ");
        wc.push_compared(int_param(year), "year = ");
        assert(wc@.conditions =~= spec_self.where_conditions());
        wc
    }
}

/// Each present criterion adds exactly one condition.
pub proof fn lemma_club_request_condition_count(q: QueryableClubRequest)
    ensures
        q.where_conditions().len() == present(q.ids) + present(q.club_ids) + present(q.student_ids) + present(q.membership_status) + present(q.year),
{
}

/// A field that club membership requests can be sorted by.
#[derive(Clone, Copy, Debug, PartialEq, Eq, Structural)]
pub enum SortableClubRequest {
    Id,
    ClubId,
    StudentId,
    Year,
    MembershipStatus,
    CreatedAt,
}

impl Default for SortableClubRequest {
    fn default() -> (r: Self)
        ensures
            r == SortableClubRequest::Id,
    {
        SortableClubRequest::Id
    }
}

impl Sortable for SortableClubRequest {
    open spec fn column(&self) -> Seq<char> {
        match self {
            SortableClubRequest::Id => "id"@,
            SortableClubRequest::ClubId => "club_id"@,
            SortableClubRequest::StudentId => "student_id"@,
            SortableClubRequest::Year => "year"@,
            SortableClubRequest::MembershipStatus => "membership_status"@,
            SortableClubRequest::CreatedAt => "created_at"@,
        }
    }

    fn to_string(&self) -> (r: String) {
        match self {
            SortableClubRequest::Id => String::from_str("id"),
            SortableClubRequest::ClubId => String::from_str("club_id"),
            SortableClubRequest::StudentId => String::from_str("student_id"),
            SortableClubRequest::Year => String::from_str("year"),
            SortableClubRequest::MembershipStatus => String::from_str("membership_status"),
            SortableClubRequest::CreatedAt => String::from_str("created_at"),
        }
    }
}

/// A request filter with no criterion.
pub open spec fn no_request_criteria() -> QueryableClubRequest {
    QueryableClubRequest { ids: None, club_ids: None, student_ids: None, membership_status: None, year: None }
}

/// Filtering and sorting name the same columns: each criterion tests, against its value,
/// the column that the sort field of the same attribute orders by (`id`, `club_id`,
/// `student_id`, `membership_status`, `year`), and distinct sort fields order by distinct
/// columns.
pub proof fn lemma_club_request_columns(v: Vec<Uuid>, s: SubmissionStatus, y: i64)
    ensures
        (QueryableClubRequest { ids: Some(v), ..no_request_criteria() }).where_conditions() == seq![seq![
            SqlFragmentView::Sql(SortableClubRequest::Id.column() + " = ANY("@),
            SqlFragmentView::Param(QueryParamView::ArrayUuid(v@)),
            SqlFragmentView::Sql(")"@),
        ]],
        (QueryableClubRequest { club_ids: Some(v), ..no_request_criteria() }).where_conditions() == seq![seq![
            SqlFragmentView::Sql(SortableClubRequest::ClubId.column() + " = ANY("@),
            SqlFragmentView::Param(QueryParamView::ArrayUuid(v@)),
            SqlFragmentView::Sql(")"@),
        ]],
        (QueryableClubRequest { student_ids: Some(v), ..no_request_criteria() }).where_conditions() == seq![seq![
            SqlFragmentView::Sql(SortableClubRequest::StudentId.column() + " = ANY("@),
            SqlFragmentView::Param(QueryParamView::ArrayUuid(v@)),
            SqlFragmentView::Sql(")"@),
        ]],
        (QueryableClubRequest { membership_status: Some(s), ..no_request_criteria() }).where_conditions() == seq![seq![
            SqlFragmentView::Sql(SortableClubRequest::MembershipStatus.column() + " = "@),
            SqlFragmentView::Param(QueryParamView::SubmissionStatus(s)),
        ]],
        (QueryableClubRequest { year: Some(y), ..no_request_criteria() }).where_conditions() == seq![seq![
            SqlFragmentView::Sql(SortableClubRequest::Year.column() + " = "@),
            SqlFragmentView::Param(QueryParamView::Int(y)),
        ]],
        forall|a: SortableClubRequest, b: SortableClubRequest| a.column() == b.column() ==> a == b,
{
    reveal_strlit("id");
    reveal_strlit("club_id");
    reveal_strlit("student_id");
    reveal_strlit("year");
    reveal_strlit("membership_status");
    reveal_strlit("created_at");
    reveal_strlit(" = ANY(");
    reveal_strlit(" = ");
    reveal_strlit("id = ANY(");
    reveal_strlit("club_id = ANY(");
    reveal_strlit("student_id = ANY(");
    reveal_strlit("membership_status = ");
    reveal_strlit("year = ");
    assert("id"@ + " = ANY("@ =~= "id = ANY("@);
    assert("club_id"@ + " = ANY("@ =~= "club_id = ANY("@);
    assert("student_id"@ + " = ANY("@ =~= "student_id = ANY("@);
    assert("membership_status"@ + " = "@ =~= "membership_status = "@);
    assert("year"@ + " = "@ =~= "year = "@);
    assert forall|a: SortableClubRequest, b: SortableClubRequest| a.column() == b.column() implies a == b by {
        if a != b {
            assert(a.column()[0] != b.column()[0] || a.column().len() != b.column().len()
                || a.column()[1] != b.column()[1]);
        }
    }
}

} // verus!
