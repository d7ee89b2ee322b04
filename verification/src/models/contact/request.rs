//! Filtering and sorting of contacts.
use vstd::prelude::*;
use crate::common::requests::Sortable;
use crate::ids::Uuid;
use crate::models::contact::enums::ContactType;
use crate::query::{present, QueryParamView, contact_type_param, contact_type_view, string_param, string_view, uuids_param, uuids_view, when_compared, when_searched_twice, when_wrapped, SqlFragmentView, SqlWhereClause, SqlWhereClauseView};

verus! {

/// Criteria on contacts; each present criterion adds one condition.
pub struct QueryableContact {
    pub ids: Option<Vec<Uuid>>,
    pub name: Option<String>,
    pub contact_type: Option<ContactType>,
    pub value: Option<String>,
    pub classroom_ids: Option<Vec<Uuid>>,
    pub club_ids: Option<Vec<Uuid>>,
    pub student_ids: Option<Vec<Uuid>>,
    pub teacher_ids: Option<Vec<Uuid>>,
}

impl QueryableContact {
    /// The conditions of the criteria, in the order of the fields.
    pub open spec fn where_conditions(self) -> Seq<Seq<SqlFragmentView>> {
        when_wrapped(uuids_view(self.ids), "id = ANY(", ")")
        + when_searched_twice(string_view(self.name), "(name_th ILIKE ('%' || ", " || '%') OR name_en ILIKE ('%' || ", " || '%'))")
        + when_compared(contact_type_view(self.contact_type), "type = ")
        + when_wrapped(string_view(self.value), "value ILIKE ('%' || ", " || '%')")
        + when_wrapped(uuids_view(self.classroom_ids), "id IN (SELECT contact_id FROM classroom_contacts WHERE classroom_id = ANY(", "))")
        + when_wrapped(uuids_view(self.club_ids), "id IN (SELECT contact_id FROM club_contacts WHERE club_id = ANY(", "))")
        + when_wrapped(uuids_view(self.student_ids), "
                id IN (SELECT contact_id FROM person_contacts WHERE person_id = ANY(SELECT \
                person_id FROM students WHERE id = ANY(
                ", ")))")
        + when_wrapped(uuids_view(self.teacher_ids), "
                id IN (SELECT contact_id FROM person_contacts WHERE person_id = ANY(SELECT \
                person_id FROM teachers WHERE id = ANY(
                ", ")))")
    }

    /// The `WHERE` clause (with its keyword) of the criteria.
    pub fn to_where_clause(self) -> (r: SqlWhereClause)
        ensures
            r@ == (SqlWhereClauseView { with_keyword: true, conditions: self.where_conditions() }),
    {
        let ghost spec_self = self;
        let QueryableContact { ids, name, contact_type, value, classroom_ids, club_ids, student_ids, teacher_ids } = self;
        let mut wc = SqlWhereClause::new();
        wc.push_wrapped(uuids_param(ids), "id = ANY(", ")");
        wc.push_searched_twice(string_param(name), "(name_th ILIKE ('%' || ", " || '%') OR name_en ILIKE ('%' || ", " || '%'))");
        wc.push_compared(contact_type_param(contact_type), "type = ");
        wc.push_wrapped(string_param(value), "value ILIKE ('%' || ", " || '%')");
        wc.push_wrapped(uuids_param(classroom_ids), "id IN (SELECT contact_id FROM classroom_contacts WHERE classroom_id = ANY(", "))");
        wc.push_wrapped(uuids_param(club_ids), "id IN (SELECT contact_id FROM club_contacts WHERE club_id = ANY(", "))");
        wc.push_wrapped(uuids_param(student_ids), "
                id IN (SELECT contact_id FROM person_contacts WHERE person_id = ANY(SELECT \
                person_id FROM students WHERE id = ANY(
                ", ")))");
        wc.push_wrapped(uuids_param(teacher_ids), "
                id IN (SELECT contact_id FROM person_contacts WHERE person_id = ANY(SELECT \
                person_id FROM teachers WHERE id = ANY(
                ", ")))");
        assert(wc@.conditions =~= spec_self.where_conditions());
        wc
    }
}

/// Each present criterion adds exactly one condition.
pub proof fn lemma_contact_condition_count(q: QueryableContact)
    ensures
        q.where_conditions().len() == present(q.ids) + present(q.name) + present(q.contact_type) + present(q.value) + present(q.classroom_ids) + present(q.club_ids) + present(q.student_ids) + present(q.teacher_ids),
{
}

/// A contact filter with no criterion.
pub open spec fn no_contact_criteria() -> QueryableContact {
    QueryableContact {
        ids: None,
        name: None,
        contact_type: None,
        value: None,
        classroom_ids: None,
        club_ids: None,
        student_ids: None,
        teacher_ids: None,
    }
}

/// Each criterion filters on its own column: the identifier criterion tests the column that
/// sorting by identifier orders by (`id`), the kind criterion the column that sorting by kind
/// orders by (`type`), and the classroom and club criteria keep the contacts that the given
/// classrooms, respectively clubs, list; distinct sort fields order by distinct columns.
pub proof fn lemma_contact_columns(v: Vec<Uuid>, t: ContactType)
    ensures
        (QueryableContact { ids: Some(v), ..no_contact_criteria() }).where_conditions() == seq![seq![
            SqlFragmentView::Sql(SortableContact::Id.column() + " = ANY("@),
            SqlFragmentView::Param(QueryParamView::ArrayUuid(v@)),
            SqlFragmentView::Sql(")"@),
        ]],
        (QueryableContact { contact_type: Some(t), ..no_contact_criteria() }).where_conditions() == seq![seq![
            SqlFragmentView::Sql(SortableContact::Type.column() + " = "@),
            SqlFragmentView::Param(QueryParamView::ContactType(t)),
        ]],
        (QueryableContact { classroom_ids: Some(v), ..no_contact_criteria() }).where_conditions() == seq![seq![
            SqlFragmentView::Sql("id IN (SELECT contact_id FROM "@ + "classroom_contacts"@ + " WHERE "@ + "classroom_id"@ + " = ANY("@),
            SqlFragmentView::Param(QueryParamView::ArrayUuid(v@)),
            SqlFragmentView::Sql("))"@),
        ]],
        (QueryableContact { club_ids: Some(v), ..no_contact_criteria() }).where_conditions() == seq![seq![
            SqlFragmentView::Sql("id IN (SELECT contact_id FROM "@ + "club_contacts"@ + " WHERE "@ + "club_id"@ + " = ANY("@),
            SqlFragmentView::Param(QueryParamView::ArrayUuid(v@)),
            SqlFragmentView::Sql("))"@),
        ]],
        forall|a: SortableContact, b: SortableContact| a.column() == b.column() ==> a == b,
{
    reveal_strlit("id");
    reveal_strlit("name");
    reveal_strlit("type");
    reveal_strlit(" = ANY(");
    reveal_strlit(" = ");
    reveal_strlit("id = ANY(");
    reveal_strlit("type = ");
    reveal_strlit("id IN (SELECT contact_id FROM ");
    reveal_strlit("classroom_contacts");
    reveal_strlit("club_contacts");
    reveal_strlit(" WHERE ");
    reveal_strlit("classroom_id");
    reveal_strlit("club_id");
    reveal_strlit("id IN (SELECT contact_id FROM classroom_contacts WHERE classroom_id = ANY(");
    reveal_strlit("id IN (SELECT contact_id FROM club_contacts WHERE club_id = ANY(");
    assert("id"@ + " = ANY("@ =~= "id = ANY("@);
    assert("type"@ + " = "@ =~= "type = "@);
    assert("id IN (SELECT contact_id FROM "@ + "classroom_contacts"@ + " WHERE "@ + "classroom_id"@ + " = ANY("@
        =~= "id IN (SELECT contact_id FROM classroom_contacts WHERE classroom_id = ANY("@);
    assert("id IN (SELECT contact_id FROM "@ + "club_contacts"@ + " WHERE "@ + "club_id"@ + " = ANY("@
        =~= "id IN (SELECT contact_id FROM club_contacts WHERE club_id = ANY("@);
    assert forall|a: SortableContact, b: SortableContact| a.column() == b.column() implies a == b by {
        if a != b {
            assert(a.column()[0] != b.column()[0]);
        }
    }
}

/// A field that contacts can be sorted by.
#[derive(Clone, Copy, Debug, PartialEq, Eq, Structural)]
pub enum SortableContact {
    Id,
    Name,
    Type,
}

impl Default for SortableContact {
    fn default() -> (r: Self)
        ensures
            r == SortableContact::Id,
    {
        SortableContact::Id
    }
}

impl Sortable for SortableContact {
    open spec fn column(&self) -> Seq<char> {
        match self {
            SortableContact::Id => "id"@,
            SortableContact::Name => "name"@,
            SortableContact::Type => "type"@,
        }
    }

    fn to_string(&self) -> (r: String) {
        match self {
            SortableContact::Id => String::from_str("id"),
            SortableContact::Name => String::from_str("name"),
            SortableContact::Type => String::from_str("type"),
        }
    }
}
} // verus!
