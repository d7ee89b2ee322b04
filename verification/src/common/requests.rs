//! The parts of a list request: detail level, filter, sort order and page.
use vstd::prelude::*;
use crate::common::pagination::PaginationConfig;
use crate::query::{fragment_views, sql, sql_fragment, SqlFragment, SqlFragmentView};
use crate::text::{join_strings, join_strs, string_views};

verus! {

/// How much of a record, and of the records it refers to, a response carries.
#[derive(Clone, Copy, Debug, PartialEq, Eq, Structural)]
pub enum FetchLevel {
    IdOnly,
    Compact,
    Default,
    Detailed,
}

/// A filter: structured criteria, and a free-text search.
pub struct FilterConfig<T> {
    pub data: Option<T>,
    pub q: Option<String>,
}

/// A field that results can be ordered by, named by its column.
pub trait Sortable {
    /// The column that orders the results.
    spec fn column(&self) -> Seq<char>;

    /// The name of the column.
    fn to_string(&self) -> (r: String)
        ensures
            r@ == self.column(),
    ;
}

/// The order of results: the fields to sort by, and whether ascending (the default) or
/// descending.
pub struct SortingConfig<S> {
    by: Vec<S>,
    ascending: Option<bool>,
}

/// The `ORDER BY` pieces for the given columns and direction: the columns are joined with
/// `, ` and followed by ` ASC` unless the order is explicitly descending.
pub open spec fn order_by(columns: Seq<Seq<char>>, ascending: Option<bool>) -> Seq<SqlFragmentView> {
    seq![
        sql(" ORDER BY "),
        SqlFragmentView::Sql(join_strs(columns, ", "@)),
        if ascending != Some(false) { sql(" ASC") } else { sql(" DESC") },
    ]
}

/// Results are sorted in ascending order unless the request says otherwise.
pub proof fn lemma_ascending_by_default(columns: Seq<Seq<char>>)
    ensures
        order_by(columns, None) == order_by(columns, Some(true)),
        order_by(columns, Some(false)) != order_by(columns, None),
{
    reveal_strlit(" ASC");
    reveal_strlit(" DESC");
    assert(order_by(columns, Some(false))[2] != order_by(columns, None)[2]) by {
        assert(" ASC"@.len() != " DESC"@.len());
    }
}

impl<S: Sortable> SortingConfig<S> {
    /// The columns of the sort fields, in order.
    pub closed spec fn columns(&self) -> Seq<Seq<char>> {
        self.by@.map_values(|s: S| s.column())
    }

    /// The requested direction, if any.
    pub closed spec fn direction(&self) -> Option<bool> {
        self.ascending
    }

    pub fn new(by: Vec<S>, ascending: Option<bool>) -> (r: Self)
        ensures
            r.columns() == by@.map_values(|s: S| s.column()),
            r.direction() == ascending,
    {
        SortingConfig { by, ascending }
    }

    /// Appends the `ORDER BY` of the sort fields to a query.
    pub fn append_into_query_builder(&self, query: &mut Vec<SqlFragment>)
        ensures
            fragment_views(final(query)@) == fragment_views(old(query)@) + order_by(self.columns(), self.direction()),
    {
        let mut names: Vec<String> = Vec::new();
        let n = self.by.len();
        let mut i: usize = 0;
        while i < n
            invariant
                n == self.by@.len(),
                i <= n,
                string_views(names@) == self.by@.take(i as int).map_values(|s: S| s.column()),
            decreases n - i,
        {
            let name = self.by[i].to_string();
            let ghost before = string_views(names@);
            names.push(name);
            assert(string_views(names@) =~= before.push(self.by@[i as int].column()));
            assert(self.by@.take(i + 1).map_values(|s: S| s.column()) =~= self.by@.take(i as int).map_values(
                |s: S| s.column(),
            ).push(self.by@[i as int].column()));
            i = i + 1;
        }
        assert(self.by@.take(n as int) =~= self.by@);
        let joined = join_strings(&names, ", ");
        let ghost start = fragment_views(query@);
        query.push(sql_fragment(" ORDER BY "));
        query.push(SqlFragment::Sql(joined));
        let ascending = match self.ascending {
            Some(a) => a,
            None => true,
        };
        if ascending {
            query.push(sql_fragment(" ASC"));
        } else {
            query.push(sql_fragment(" DESC"));
        }
        assert(fragment_views(query@) =~= start + order_by(self.columns(), self.direction()));
    }
}

/// A placeholder for lists that have no filter criteria.
pub struct QueryablePlaceholder;

/// A placeholder sort field for lists that cannot be sorted; its column is empty.
pub struct SortablePlaceholder;

impl Sortable for SortablePlaceholder {
    open spec fn column(&self) -> Seq<char> {
        Seq::<char>::empty()
    }

    fn to_string(&self) -> (r: String) {
        String::new()
    }
}

/// A list request: its payload, page, filter, sort order and detail levels for the records
/// and the records they refer to.
pub struct RequestType<T, Q, S> {
    pub data: Option<T>,
    pub pagination: Option<PaginationConfig>,
    pub filter: Option<FilterConfig<Q>>,
    pub sort: Option<SortingConfig<S>>,
    pub fetch_level: Option<FetchLevel>,
    pub descendant_fetch_level: Option<FetchLevel>,
}

} // verus!
