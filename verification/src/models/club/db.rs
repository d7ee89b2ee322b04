//! Clubs as stored, and the query conditions of a club filter.
use vstd::prelude::*;
use crate::common::requests::FilterConfig;
use crate::helpers::date::{academic_year, date_at};
use crate::ids::{Timestamp, Uuid};
use crate::models::club::request::QueryableClub;
use crate::query::{fragment_views, param, render_where, sql, sql_fragment, QueryParam, QueryParamView, SqlCondition, SqlFragment, SqlFragmentView, SqlWhereClause, SqlWhereClauseView};

verus! {

/// A club as stored, with its member and staff counts.
pub struct DbClub {
    pub id: Uuid,
    pub created_at: Option<Timestamp>,
    pub organization_id: Uuid,
    pub accent_color: Option<String>,
    pub background_color: Option<String>,
    pub description_en: Option<String>,
    pub description_th: Option<String>,
    pub logo_url: Option<String>,
    pub member_count: i64,
    pub name_en: Option<String>,
    pub name_th: String,
    pub staff_count: i64,
}

/// The free-text search condition: the text occurs in the Thai or English name or
/// description.
pub open spec fn club_search(q: Seq<char>) -> Seq<SqlFragmentView> {
    seq![
        sql("name_th ILIKE ('%' || "),
        param(QueryParamView::String(q)),
        sql(" || '%') OR name_en ILIKE ('%' || "),
        SqlFragmentView::PrevParam,
        sql(" || '%') OR description_th ILIKE ('%' || "),
        SqlFragmentView::PrevParam,
        sql(" || '%') OR description_en ILIKE ('%' || "),
        SqlFragmentView::PrevParam,
        sql(" || '%')"),
    ]
}

impl DbClub {
    /// The pieces that a club filter adds to a query, with staff looked up in the given
    /// academic year: the search clause (with ` WHERE `) when there is a search text, then
    /// the criteria, preceded by ` WHERE ` when there was no search text.
    pub open spec fn shared_query(filter: Option<FilterConfig<QueryableClub>>, academic_year: i64) -> Seq<SqlFragmentView> {
        match filter {
            Some(f) => {
                let search = match f.q {
                    Some(q) => render_where(SqlWhereClauseView { with_keyword: true, conditions: seq![club_search(q@)] }),
                    None => Seq::<SqlFragmentView>::empty(),
                };
                let criteria = match f.data {
                    Some(d) => (if f.q is None { seq![sql(" WHERE ")] } else { Seq::<SqlFragmentView>::empty() })
                        + render_where(d.where_clause(academic_year)),
                    None => Seq::<SqlFragmentView>::empty(),
                };
                search + criteria
            },
            None => Seq::<SqlFragmentView>::empty(),
        }
    }

    /// The search condition for a text.
    fn search_condition(q: String) -> (r: SqlCondition)
        ensures
            r@ == club_search(q@),
    {
        let ghost qv = q@;
        let mut c = SqlCondition::new();
        c.push_sql("name_th ILIKE ('%' || ");
        c.push_param(QueryParam::String(q));
        c.push_sql(" || '%') OR name_en ILIKE ('%' || ");
        c.push_prev_param();
        c.push_sql(" || '%') OR description_th ILIKE ('%' || ");
        c.push_prev_param();
        c.push_sql(" || '%') OR description_en ILIKE ('%' || ");
        c.push_prev_param();
        c.push_sql(" || '%')");
        assert(c@ =~= club_search(qv));
        c
    }

    /// Whether a filter asks for staff, which are looked up in the academic year.
    pub open spec fn needs_year(filter: Option<FilterConfig<QueryableClub>>) -> bool {
        filter matches Some(f) && f.data matches Some(d) && d.staff_ids is Some
    }

    /// Appends the search and the criteria of a filter to a query; staff are looked up in
    /// the academic year of today's date in UTC. When the filter asks for staff and the
    /// clock's reading has no date, nothing is appended and the result is `false`.
    pub fn build_shared_query(query: &mut Vec<SqlFragment>, filter: Option<FilterConfig<QueryableClub>>) -> (r: bool)
        ensures
            !Self::needs_year(filter) ==> r && fragment_views(final(query)@) == fragment_views(old(query)@)
                + Self::shared_query(filter, 0),
            Self::needs_year(filter) && r ==> exists|t: Timestamp| #[trigger] date_at(t, 0) matches Some(d)
                && fragment_views(final(query)@) == fragment_views(old(query)@) + Self::shared_query(filter, academic_year(d)),
            !r ==> final(query)@ == old(query)@,
    {
        let ghost spec_filter = filter;
        let ghost start = fragment_views(query@);
        match filter {
            None => {
                assert(fragment_views(query@) =~= start + Self::shared_query(spec_filter, 0));
                true
            },
            Some(filter) => {
                let FilterConfig { data, q } = filter;
                let criteria = match data {
                    Some(data) => match data.to_where_clause() {
                        Some(wc) => Some(wc),
                        None => return false,
                    },
                    None => None,
                };
                let query_is_none = q.is_none();
                let ghost q_spec: Option<String> = q;
                if let Some(text) = q {
                    let mut wc = SqlWhereClause::new();
                    wc.push_condition(Self::search_condition(text));
                    assert(wc@.conditions =~= seq![club_search(q_spec.unwrap()@)]);
                    wc.append_into_query_builder(query);
                }
                match criteria {
                    Some(wc) => {
                        if query_is_none {
                            query.push(sql_fragment(" WHERE "));
                        }
                        let ghost data_view = spec_filter.unwrap().data.unwrap();
                        let ghost wv = wc@;
                        wc.append_into_query_builder(query);
                        proof {
                            if data_view.staff_ids is None {
                                assert(fragment_views(query@) =~= start + Self::shared_query(spec_filter, 0));
                            } else {
                                let t = choose|t: Timestamp| #[trigger] date_at(t, 0) matches Some(d)
                                    && wv == data_view.where_clause(academic_year(d));
                                assert(date_at(t, 0) matches Some(d) && fragment_views(query@) =~= start
                                    + Self::shared_query(spec_filter, academic_year(d)));
                            }
                        }
                    },
                    None => {
                        assert(fragment_views(query@) =~= start + Self::shared_query(spec_filter, 0));
                    },
                }
                true
            },
        }
    }
}

} // verus!
