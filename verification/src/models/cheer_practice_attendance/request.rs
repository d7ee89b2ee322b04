//! Filtering and sorting of cheer practice attendances.
use vstd::prelude::*;
use crate::common::requests::Sortable;
use crate::ids::Uuid;
use crate::query::{present, QueryParamView, SqlFragmentView, SqlWhereClause, SqlWhereClauseView, uuid_param, uuid_view, uuids_param, uuids_view, when_compared, when_wrapped};

verus! {

/// Criteria on cheer practice attendances; each present criterion adds one condition.
pub struct QueryableCheerPracticeAttendance {
    pub ids: Option<Vec<Uuid>>,
    pub practice_period_id: Option<Uuid>,
    pub classroom_id: Option<Uuid>,
}

impl QueryableCheerPracticeAttendance {
    /// The conditions of the criteria, in the order of the fields.
    pub open spec fn where_conditions(self) -> Seq<Seq<SqlFragmentView>> {
        when_wrapped(uuids_view(self.ids), "id = ANY(", ")")
        + when_compared(uuid_view(self.practice_period_id), "practice_period_id = ")
        + when_wrapped(uuid_view(self.classroom_id), "student_id IN (SELECT student_id FROM classroom_students WHERE classroom_id = ", " ORDER BY classroom_id)")
    }

    /// The `WHERE` clause (with its keyword) of the criteria.
    pub fn to_where_clause(self) -> (r: SqlWhereClause)
        ensures
            r@ == (SqlWhereClauseView { with_keyword: true, conditions: self.where_conditions() }),
    {
        let ghost spec_self = self;
        let QueryableCheerPracticeAttendance { ids, practice_period_id, classroom_id } = self;
        let mut wc = SqlWhereClause::new();
        wc.push_wrapped(uuids_param(ids), "id = ANY(", ")");
        wc.push_compared(uuid_param(practice_period_id), "practice_period_id = ");
        wc.push_wrapped(uuid_param(classroom_id), "student_id IN (SELECT student_id FROM classroom_students WHERE classroom_id = ", " ORDER BY classroom_id)");
        assert(wc@.conditions =~= spec_self.where_conditions());
        wc
    }
}

/// Each present criterion adds exactly one condition.
pub proof fn lemma_cheer_practice_attendance_condition_count(q: QueryableCheerPracticeAttendance)
    ensures
        q.where_conditions().len() == present(q.ids) + present(q.practice_period_id) + present(q.classroom_id),
{
}

/// Each criterion filters on its own column: the identifier criterion tests the column that
/// sorting by identifier orders by (`id`) against the given identifiers, the period criterion
/// tests `practice_period_id` against the given period, and the classroom criterion keeps the
/// attendances of the students of the given classroom; distinct sort fields order by distinct
/// columns.
pub proof fn lemma_cheer_practice_attendance_columns(v: Vec<Uuid>, p: Uuid, c: Uuid)
    ensures
        (QueryableCheerPracticeAttendance { ids: Some(v), practice_period_id: None, classroom_id: None }).where_conditions()
            == seq![seq![
                SqlFragmentView::Sql(SortableCheerPracticeAttendance::Id.column() + " = ANY("@),
                SqlFragmentView::Param(QueryParamView::ArrayUuid(v@)),
                SqlFragmentView::Sql(")"@),
            ]],
        (QueryableCheerPracticeAttendance { ids: None, practice_period_id: Some(p), classroom_id: None }).where_conditions()
            == seq![seq![
                SqlFragmentView::Sql("practice_period_id"@ + " = "@),
                SqlFragmentView::Param(QueryParamView::Uuid(p)),
            ]],
        (QueryableCheerPracticeAttendance { ids: None, practice_period_id: None, classroom_id: Some(c) }).where_conditions()
            == seq![seq![
                SqlFragmentView::Sql("student_id IN (SELECT student_id FROM classroom_students WHERE classroom_id = "@),
                SqlFragmentView::Param(QueryParamView::Uuid(c)),
                SqlFragmentView::Sql(" ORDER BY classroom_id)"@),
            ]],
        forall|a: SortableCheerPracticeAttendance, b: SortableCheerPracticeAttendance| a.column() == b.column() ==> a == b,
{
    reveal_strlit("id");
    reveal_strlit("created_at");
    reveal_strlit(" = ANY(");
    reveal_strlit(" = ");
    reveal_strlit("id = ANY(");
    reveal_strlit("practice_period_id");
    reveal_strlit("practice_period_id = ");
    assert("id"@ + " = ANY("@ =~= "id = ANY("@);
    assert("practice_period_id"@ + " = "@ =~= "practice_period_id = "@);
    assert forall|a: SortableCheerPracticeAttendance, b: SortableCheerPracticeAttendance| a.column() == b.column() implies a == b by {
        if a != b {
            assert(a.column()[0] != b.column()[0]);
        }
    }
}

/// A field that cheer practice attendances can be sorted by.
#[derive(Clone, Copy, Debug, PartialEq, Eq, Structural)]
pub enum SortableCheerPracticeAttendance {
    Id,
    CreatedAt,
}

impl Default for SortableCheerPracticeAttendance {
    fn default() -> (r: Self)
        ensures
            r == SortableCheerPracticeAttendance::Id,
    {
        SortableCheerPracticeAttendance::Id
    }
}

impl Sortable for SortableCheerPracticeAttendance {
    open spec fn column(&self) -> Seq<char> {
        match self {
            SortableCheerPracticeAttendance::Id => "id"@,
            SortableCheerPracticeAttendance::CreatedAt => "created_at"@,
        }
    }

    fn to_string(&self) -> (r: String) {
        match self {
            SortableCheerPracticeAttendance::Id => String::from_str("id"),
            SortableCheerPracticeAttendance::CreatedAt => String::from_str("created_at"),
        }
    }
}

} // verus!
