//! Contacts as stored.
use vstd::prelude::*;
use crate::common::requests::FilterConfig;
use crate::ids::{Timestamp, Uuid};
use crate::models::contact::enums::ContactType;
use crate::models::contact::request::QueryableContact;
use crate::query::{fragment_views, render_where, SqlFragment, SqlFragmentView, SqlWhereClauseView};

verus! {

/// A contact entry as stored: an optional Thai and English name, its kind and its value.
pub struct DbContact {
    pub id: Uuid,
    pub created_at: Option<Timestamp>,
    pub name_th: Option<String>,
    pub name_en: Option<String>,
    pub contact_type: ContactType,
    pub value: String,
}

impl DbContact {
    /// The pieces that a filter adds to a query: the `WHERE` clause of its criteria, if any.
    pub open spec fn shared_query(filter: Option<FilterConfig<QueryableContact>>) -> Seq<SqlFragmentView> {
        match filter {
            Some(f) => match f.data {
                Some(d) => render_where(SqlWhereClauseView { with_keyword: true, conditions: d.where_conditions() }),
                None => Seq::<SqlFragmentView>::empty(),
            },
            None => Seq::<SqlFragmentView>::empty(),
        }
    }

    /// Appends the conditions of a filter to a query.
    pub fn build_shared_query(query: &mut Vec<SqlFragment>, filter: Option<FilterConfig<QueryableContact>>)
        ensures
            fragment_views(final(query)@) == fragment_views(old(query)@) + Self::shared_query(filter),
    {
        let ghost spec_filter = filter;
        if let Some(filter) = filter {
            if let Some(data) = filter.data {
                data.to_where_clause().append_into_query_builder(query);
                return;
            }
        }
        assert(fragment_views(query@) =~= fragment_views(old(query)@) + Self::shared_query(spec_filter));
    }
}

} // verus!
