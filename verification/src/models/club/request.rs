//! Filtering and sorting of clubs.
use vstd::prelude::*;
use crate::common::requests::Sortable;
use crate::helpers::date::{academic_year, date_at, get_current_academic_year};
use crate::ids::{Timestamp, Uuid};
use crate::query::{present, QueryParam, QueryParamView, SqlFragmentView, SqlWhereClause, SqlWhereClauseView, string_param, string_view, uuids_param, uuids_view, when_searched_twice, when_two_values, when_wrapped};

verus! {

/// Criteria on clubs; each present criterion adds one condition.
pub struct QueryableClub {
    pub ids: Option<Vec<Uuid>>,
    pub name: Option<String>,
    pub description: Option<String>,
    pub contact_ids: Option<Vec<Uuid>>,
    pub member_ids: Option<Vec<Uuid>>,
    pub staff_ids: Option<Vec<Uuid>>,
}

impl QueryableClub {
    /// The conditions of the criteria, in the order of the fields.
    pub open spec fn where_conditions(self, academic_year: i64) -> Seq<Seq<SqlFragmentView>> {
        when_wrapped(uuids_view(self.ids), "id = ANY(", ")")
        + when_searched_twice(string_view(self.name), "(name_th ILIKE ('%' || ", " || '%') OR name_en ILIKE ('%' || ", " || '%'))")
        + when_searched_twice(string_view(self.description), "(description_th ILIKE ('%' || ", " || '%') OR description_en ILIKE ('%' || ", " || '%'))")
        + when_wrapped(uuids_view(self.contact_ids), "id IN (SELECT club_id FROM club_contacts WHERE contact_id = ANY(", "))")
        + when_wrapped(uuids_view(self.member_ids), "id (SELECT club_id FROM club_members WHERE student_id = ANY(", "
                    ) AND membership_status = 'approved' AND year = get_current_academic_year(\
                    CAST(NOW() as DATE)))
                    ")
        + when_two_values(uuids_view(self.staff_ids), "id IN (SELECT club_id FROM club_staffs WHERE student_id = ANY(", ") AND year = ", QueryParamView::Int(academic_year))
    }

    /// The `WHERE` clause (without its keyword) of the criteria, for the given academic year.
    pub fn to_where_clause_for_year(self, academic_year: i64) -> (r: SqlWhereClause)
        ensures
            r@ == (SqlWhereClauseView { with_keyword: false, conditions: self.where_conditions(academic_year) }),
    {
        let ghost spec_self = self;
        let QueryableClub { ids, name, description, contact_ids, member_ids, staff_ids } = self;
        let mut wc = SqlWhereClause::new_empty();
        wc.push_wrapped(uuids_param(ids), "id = ANY(", ")");
        wc.push_searched_twice(string_param(name), "(name_th ILIKE ('%' || ", " || '%') OR name_en ILIKE ('%' || ", " || '%'))");
        wc.push_searched_twice(string_param(description), "(description_th ILIKE ('%' || ", " || '%') OR description_en ILIKE ('%' || ", " || '%'))");
        wc.push_wrapped(uuids_param(contact_ids), "id IN (SELECT club_id FROM club_contacts WHERE contact_id = ANY(", "))");
        wc.push_wrapped(uuids_param(member_ids), "id (SELECT club_id FROM club_members WHERE student_id = ANY(", "
                    ) AND membership_status = 'approved' AND year = get_current_academic_year(\
                    CAST(NOW() as DATE)))
                    ");
        wc.push_two_values(uuids_param(staff_ids), "id IN (SELECT club_id FROM club_staffs WHERE student_id = ANY(", ") AND year = ", QueryParam::Int(academic_year));
        assert(wc@.conditions =~= spec_self.where_conditions(academic_year));
        wc
    }

    /// The `WHERE` clause of the criteria for the given academic year.
    pub open spec fn where_clause(self, academic_year: i64) -> SqlWhereClauseView {
        SqlWhereClauseView { with_keyword: false, conditions: self.where_conditions(academic_year) }
    }

    /// The `WHERE` clause (without its keyword) of the criteria. Staff are looked up in the
    /// academic year of today's date in UTC, and only a staff criterion reads the clock;
    /// none when it does and the clock's reading has no date.
    pub fn to_where_clause(self) -> (r: Option<SqlWhereClause>)
        ensures
            self.staff_ids is None ==> (r matches Some(w) && w@ == self.where_clause(0)),
            self.staff_ids is Some ==> (r matches Some(w) ==> exists|t: Timestamp| #[trigger] date_at(t, 0) matches Some(d)
                && w@ == self.where_clause(academic_year(d))),
    {
        let ghost spec_self = self;
        if self.staff_ids.is_none() {
            return Some(self.to_where_clause_for_year(0));
        }
        let year = match get_current_academic_year(None) {
            Some(y) => y,
            None => return None,
        };
        let r = self.to_where_clause_for_year(year);
        proof {
            let t = choose|t: Timestamp| #[trigger] date_at(t, 0) matches Some(d) && year == academic_year(d);
            assert(date_at(t, 0) matches Some(d) && r@ == spec_self.where_clause(academic_year(d)));
        }
        Some(r)
    }
}

/// Each present criterion adds exactly one condition.
pub proof fn lemma_club_condition_count(q: QueryableClub, academic_year: i64)
    ensures
        q.where_conditions(academic_year).len() == present(q.ids) + present(q.name) + present(q.description) + present(q.contact_ids) + present(q.member_ids) + present(q.staff_ids),
{
}

/// A club filter with no criterion.
pub open spec fn no_club_criteria() -> QueryableClub {
    QueryableClub { ids: None, name: None, description: None, contact_ids: None, member_ids: None, staff_ids: None }
}

/// Each criterion filters on its own column: the identifier criterion tests the column that
/// sorting by identifier orders by (`id`); the staff criterion keeps the clubs that the given
/// students staff in the given academic year, and it is the only criterion that the year
/// changes; distinct sort fields order by distinct columns.
pub proof fn lemma_club_columns(q: QueryableClub, v: Vec<Uuid>, year: i64, other_year: i64)
    ensures
        (QueryableClub { ids: Some(v), ..no_club_criteria() }).where_conditions(year) == seq![seq![
            SqlFragmentView::Sql(SortableClub::Id.column() + " = ANY("@),
            SqlFragmentView::Param(QueryParamView::ArrayUuid(v@)),
            SqlFragmentView::Sql(")"@),
        ]],
        (QueryableClub { staff_ids: Some(v), ..no_club_criteria() }).where_conditions(year) == seq![seq![
            SqlFragmentView::Sql("id IN (SELECT club_id FROM "@ + "club_staffs"@ + " WHERE student_id = ANY("@),
            SqlFragmentView::Param(QueryParamView::ArrayUuid(v@)),
            SqlFragmentView::Sql(") AND year = "@),
            SqlFragmentView::Param(QueryParamView::Int(year)),
        ]],
        q.staff_ids is None ==> q.where_conditions(year) == q.where_conditions(other_year),
        forall|a: SortableClub, b: SortableClub| a.column() == b.column() ==> a == b,
{
    reveal_strlit("id");
    reveal_strlit("house");
    reveal_strlit("map_location");
    reveal_strlit("name");
    reveal_strlit(" = ANY(");
    reveal_strlit("id = ANY(");
    reveal_strlit("id IN (SELECT club_id FROM ");
    reveal_strlit("club_staffs");
    reveal_strlit(" WHERE student_id = ANY(");
    reveal_strlit("id IN (SELECT club_id FROM club_staffs WHERE student_id = ANY(");
    assert("id"@ + " = ANY("@ =~= "id = ANY("@);
    assert("id IN (SELECT club_id FROM "@ + "club_staffs"@ + " WHERE student_id = ANY("@
        =~= "id IN (SELECT club_id FROM club_staffs WHERE student_id = ANY("@);
    assert forall|a: SortableClub, b: SortableClub| a.column() == b.column() implies a == b by {
        if a != b {
            assert(a.column()[0] != b.column()[0] || a.column().len() != b.column().len());
        }
    }
}

/// A field that clubs can be sorted by.
#[derive(Clone, Copy, Debug, PartialEq, Eq, Structural)]
pub enum SortableClub {
    Id,
    House,
    MapLocation,
    Name,
}

impl Default for SortableClub {
    fn default() -> (r: Self)
        ensures
            r == SortableClub::Id,
    {
        SortableClub::Id
    }
}

impl Sortable for SortableClub {
    open spec fn column(&self) -> Seq<char> {
        match self {
            SortableClub::Id => "id"@,
            SortableClub::House => "house"@,
            SortableClub::MapLocation => "map_location"@,
            SortableClub::Name => "name"@,
        }
    }

    fn to_string(&self) -> (r: String) {
        match self {
            SortableClub::Id => String::from_str("id"),
            SortableClub::House => String::from_str("house"),
            SortableClub::MapLocation => String::from_str("map_location"),
            SortableClub::Name => String::from_str("name"),
        }
    }
}

} // verus!
