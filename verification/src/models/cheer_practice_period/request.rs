//! Filtering and sorting of cheer practice periods.
use vstd::prelude::*;
use crate::common::requests::Sortable;
use crate::ids::{Date, Uuid};
use crate::query::{present, QueryParamView, SqlFragmentView, SqlWhereClause, SqlWhereClauseView, date_param, date_view, uuids_param, uuids_view, when_compared, when_wrapped};

verus! {

/// Criteria on cheer practice periods; each present criterion adds one condition.
pub struct QueryableCheerPracticePeriod {
    pub ids: Option<Vec<Uuid>>,
    pub date: Option<Date>,
}

impl QueryableCheerPracticePeriod {
    /// The conditions of the criteria, in the order of the fields.
    pub open spec fn where_conditions(self) -> Seq<Seq<SqlFragmentView>> {
        when_wrapped(uuids_view(self.ids), "id = ANY(", ")")
        + when_compared(date_view(self.date), "date = ")
    }

    /// The `WHERE` clause (without its keyword) of the criteria.
    pub fn to_where_clause(self) -> (r: SqlWhereClause)
        ensures
            r@ == (SqlWhereClauseView { with_keyword: false, conditions: self.where_conditions() }),
    {
        let ghost spec_self = self;
        let QueryableCheerPracticePeriod { ids, date } = self;
        let mut wc = SqlWhereClause::new_empty();
        wc.push_wrapped(uuids_param(ids), "id = ANY(", ")");
        wc.push_compared(date_param(date), "date = ");
        assert(wc@.conditions =~= spec_self.where_conditions());
        wc
    }
}

/// Each present criterion adds exactly one condition.
pub proof fn lemma_cheer_practice_period_condition_count(q: QueryableCheerPracticePeriod)
    ensures
        q.where_conditions().len() == present(q.ids) + present(q.date),
{
}

/// Filtering and sorting name the same columns: the identifier criterion tests the column
/// that sorting by identifier orders by (`id`), the date criterion the column that sorting by
/// date orders by (`date`), and distinct sort fields order by distinct columns.
pub proof fn lemma_cheer_practice_period_columns(v: Vec<Uuid>, d: Date)
    ensures
        (QueryableCheerPracticePeriod { ids: Some(v), date: None }).where_conditions() == seq![seq![
            SqlFragmentView::Sql(SortableCheerPracticePeriod::Id.column() + " = ANY("@),
            SqlFragmentView::Param(QueryParamView::ArrayUuid(v@)),
            SqlFragmentView::Sql(")"@),
        ]],
        (QueryableCheerPracticePeriod { ids: None, date: Some(d) }).where_conditions() == seq![seq![
            SqlFragmentView::Sql(SortableCheerPracticePeriod::Date.column() + " = "@),
            SqlFragmentView::Param(QueryParamView::NaiveDate(d)),
        ]],
        forall|a: SortableCheerPracticePeriod, b: SortableCheerPracticePeriod| a.column() == b.column() ==> a == b,
{
    reveal_strlit("id");
    reveal_strlit("date");
    reveal_strlit("start_time");
    reveal_strlit(" = ANY(");
    reveal_strlit(" = ");
    reveal_strlit("id = ANY(");
    reveal_strlit("date = ");
    assert("id"@ + " = ANY("@ =~= "id = ANY("@);
    assert("date"@ + " = "@ =~= "date = "@);
    assert forall|a: SortableCheerPracticePeriod, b: SortableCheerPracticePeriod| a.column() == b.column() implies a == b by {
        if a != b {
            assert(a.column()[0] != b.column()[0] || a.column().len() != b.column().len());
        }
    }
}

/// A field that cheer practice periods can be sorted by.
#[derive(Clone, Copy, Debug, PartialEq, Eq, Structural)]
pub enum SortableCheerPracticePeriod {
    Id,
    Date,
    StartTime,
}

impl Default for SortableCheerPracticePeriod {
    fn default() -> (r: Self)
        ensures
            r == SortableCheerPracticePeriod::Id,
    {
        SortableCheerPracticePeriod::Id
    }
}

impl Sortable for SortableCheerPracticePeriod {
    open spec fn column(&self) -> Seq<char> {
        match self {
            SortableCheerPracticePeriod::Id => "id"@,
            SortableCheerPracticePeriod::Date => "date"@,
            SortableCheerPracticePeriod::StartTime => "start_time"@,
        }
    }

    fn to_string(&self) -> (r: String) {
        match self {
            SortableCheerPracticePeriod::Id => String::from_str("id"),
            SortableCheerPracticePeriod::Date => String::from_str("date"),
            SortableCheerPracticePeriod::StartTime => String::from_str("start_time"),
        }
    }
}

} // verus!
