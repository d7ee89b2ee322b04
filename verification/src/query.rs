//! SQL fragments with bound parameters, and `WHERE` clauses assembled from conditions.
use vstd::prelude::*;
use crate::ids::{Date, Uuid};
use crate::models::common::enums::SubmissionStatus;
use crate::models::contact::enums::ContactType;
use crate::text::{decimal, string_views, u64_text};

verus! {

/// A value bound to a placeholder of a query.
#[derive(Debug, PartialEq)]
pub enum QueryParam {
    Int(i64),
    String(String),
    Bool(bool),
    Uuid(Uuid),
    NaiveDate(Date),
    SubmissionStatus(SubmissionStatus),
    ContactType(ContactType),
    ArrayInt(Vec<i64>),
    ArrayString(Vec<String>),
    ArrayBool(Vec<bool>),
    ArrayUuid(Vec<Uuid>),
}

/// The value of a query parameter.
pub enum QueryParamView {
    Int(i64),
    String(Seq<char>),
    Bool(bool),
    Uuid(Uuid),
    NaiveDate(Date),
    SubmissionStatus(SubmissionStatus),
    ContactType(ContactType),
    ArrayInt(Seq<i64>),
    ArrayString(Seq<Seq<char>>),
    ArrayBool(Seq<bool>),
    ArrayUuid(Seq<Uuid>),
}

impl View for QueryParam {
    type V = QueryParamView;

    open spec fn view(&self) -> QueryParamView {
        match self {
            QueryParam::Int(v) => QueryParamView::Int(*v),
            QueryParam::String(v) => QueryParamView::String(v@),
            QueryParam::Bool(v) => QueryParamView::Bool(*v),
            QueryParam::Uuid(v) => QueryParamView::Uuid(*v),
            QueryParam::NaiveDate(v) => QueryParamView::NaiveDate(*v),
            QueryParam::SubmissionStatus(v) => QueryParamView::SubmissionStatus(*v),
            QueryParam::ContactType(v) => QueryParamView::ContactType(*v),
            QueryParam::ArrayInt(v) => QueryParamView::ArrayInt(v@),
            QueryParam::ArrayString(v) => QueryParamView::ArrayString(string_views(v@)),
            QueryParam::ArrayBool(v) => QueryParamView::ArrayBool(v@),
            QueryParam::ArrayUuid(v) => QueryParamView::ArrayUuid(v@),
        }
    }
}

/// A piece of a query: literal SQL text, a value bound to the next placeholder, or a
/// reference to the placeholder of the value bound just before.
#[derive(Debug, PartialEq)]
pub enum SqlFragment {
    Sql(String),
    Param(QueryParam),
    PrevParam,
}

/// The content of a query piece.
pub enum SqlFragmentView {
    Sql(Seq<char>),
    Param(QueryParamView),
    PrevParam,
}

impl View for SqlFragment {
    type V = SqlFragmentView;

    open spec fn view(&self) -> SqlFragmentView {
        match self {
            SqlFragment::Sql(s) => SqlFragmentView::Sql(s@),
            SqlFragment::Param(p) => SqlFragmentView::Param(p@),
            SqlFragment::PrevParam => SqlFragmentView::PrevParam,
        }
    }
}

/// The contents of a sequence of query pieces.
pub open spec fn fragment_views(s: Seq<SqlFragment>) -> Seq<SqlFragmentView> {
    s.map_values(|f: SqlFragment| f@)
}

/// Literal SQL text as a query piece.
pub open spec fn sql(text: &str) -> SqlFragmentView {
    SqlFragmentView::Sql(text@)
}

/// A bound value as a query piece.
pub open spec fn param(p: QueryParamView) -> SqlFragmentView {
    SqlFragmentView::Param(p)
}

/// A query piece holding literal text.
pub fn sql_fragment(text: &str) -> (r: SqlFragment)
    ensures
        r@ == sql(text),
{
    SqlFragment::Sql(String::from_str(text))
}

/// One condition of a `WHERE` clause, as a sequence of query pieces.
pub struct SqlCondition {
    fragments: Vec<SqlFragment>,
}

impl View for SqlCondition {
    type V = Seq<SqlFragmentView>;

    closed spec fn view(&self) -> Seq<SqlFragmentView> {
        fragment_views(self.fragments@)
    }
}

impl SqlCondition {
    pub fn new() -> (r: SqlCondition)
        ensures
            r@ == Seq::<SqlFragmentView>::empty(),
    {
        let r = SqlCondition { fragments: Vec::new() };
        assert(r@ =~= Seq::<SqlFragmentView>::empty());
        r
    }

    pub fn push_sql(&mut self, text: &str)
        ensures
            final(self)@ == old(self)@.push(sql(text)),
    {
        self.fragments.push(sql_fragment(text));
        assert(fragment_views(self.fragments@) =~= old(self)@.push(sql(text)));
    }

    pub fn push_param(&mut self, p: QueryParam)
        ensures
            final(self)@ == old(self)@.push(param(p@)),
    {
        let ghost v = p@;
        self.fragments.push(SqlFragment::Param(p));
        assert(fragment_views(self.fragments@) =~= old(self)@.push(param(v)));
    }

    pub fn push_prev_param(&mut self)
        ensures
            final(self)@ == old(self)@.push(SqlFragmentView::PrevParam),
    {
        self.fragments.push(SqlFragment::PrevParam);
        assert(fragment_views(self.fragments@) =~= old(self)@.push(SqlFragmentView::PrevParam));
    }
}

/// The conditions of a clause joined with ` AND `.
pub open spec fn join_conditions(conds: Seq<Seq<SqlFragmentView>>) -> Seq<SqlFragmentView>
    decreases conds.len(),
{
    if conds.len() == 0 {
        Seq::<SqlFragmentView>::empty()
    } else if conds.len() == 1 {
        conds[0]
    } else {
        join_conditions(conds.drop_last()) + seq![sql(" AND ")] + conds.last()
    }
}

/// The content of a `WHERE` clause: whether it opens with the `WHERE` keyword, and its
/// conditions.
pub struct SqlWhereClauseView {
    pub with_keyword: bool,
    pub conditions: Seq<Seq<SqlFragmentView>>,
}

/// The query pieces of a clause: nothing when it has no condition; otherwise ` WHERE `
/// (when the clause opens with the keyword) and the conditions joined with ` AND `.
pub open spec fn render_where(c: SqlWhereClauseView) -> Seq<SqlFragmentView> {
    if c.conditions.len() == 0 {
        Seq::<SqlFragmentView>::empty()
    } else if c.with_keyword {
        seq![sql(" WHERE ")] + join_conditions(c.conditions)
    } else {
        join_conditions(c.conditions)
    }
}

/// A `WHERE` clause under construction.
pub struct SqlWhereClause {
    with_keyword: bool,
    conditions: Vec<SqlCondition>,
}

impl View for SqlWhereClause {
    type V = SqlWhereClauseView;

    closed spec fn view(&self) -> SqlWhereClauseView {
        SqlWhereClauseView {
            with_keyword: self.with_keyword,
            conditions: self.conditions@.map_values(|c: SqlCondition| c@),
        }
    }
}

impl SqlWhereClause {
    /// A clause that opens with the `WHERE` keyword.
    pub fn new() -> (r: SqlWhereClause)
        ensures
            r@.with_keyword,
            r@.conditions == Seq::<Seq<SqlFragmentView>>::empty(),
    {
        let r = SqlWhereClause { with_keyword: true, conditions: Vec::new() };
        assert(r@.conditions =~= Seq::<Seq<SqlFragmentView>>::empty());
        r
    }

    /// A clause without the keyword, to follow text that already holds it.
    pub fn new_empty() -> (r: SqlWhereClause)
        ensures
            !r@.with_keyword,
            r@.conditions == Seq::<Seq<SqlFragmentView>>::empty(),
    {
        let r = SqlWhereClause { with_keyword: false, conditions: Vec::new() };
        assert(r@.conditions =~= Seq::<Seq<SqlFragmentView>>::empty());
        r
    }

    /// Adds a condition after the present ones.
    pub fn push_condition(&mut self, condition: SqlCondition)
        ensures
            final(self)@.with_keyword == old(self)@.with_keyword,
            final(self)@.conditions == old(self)@.conditions.push(condition@),
    {
        let ghost v = condition@;
        self.conditions.push(condition);
        assert(self@.conditions =~= old(self)@.conditions.push(v));
    }

    /// Appends the pieces of the clause to a query.
    pub fn append_into_query_builder(self, query: &mut Vec<SqlFragment>)
        ensures
            fragment_views(final(query)@) == fragment_views(old(query)@) + render_where(self@),
    {
        let ghost conds = self@.conditions;
        let ghost start = fragment_views(query@);
        let n = self.conditions.len();
        if n == 0 {
            assert(fragment_views(query@) =~= start + render_where(self@));
            return;
        }
        if self.with_keyword {
            query.push(sql_fragment(" WHERE "));
        }
        let ghost head = fragment_views(query@);
        assert(head == start + (if self@.with_keyword { seq![sql(" WHERE ")] } else { Seq::<SqlFragmentView>::empty() })) by {
            assert(head =~= start + (if self@.with_keyword { seq![sql(" WHERE ")] } else { Seq::<SqlFragmentView>::empty() }));
        }
        let mut rest = self.conditions;
        let mut i: usize = 0;
        while i < n
            invariant
                n == conds.len(),
                i <= n,
                rest@.len() == n - i,
                forall|k: int| 0 <= k < rest@.len() ==> #[trigger] rest@[k]@ == conds[i + k],
                i == 0 ==> fragment_views(query@) == head,
                i > 0 ==> fragment_views(query@) == head + join_conditions(conds.take(i as int)),
            decreases n - i,
        {
            let ghost before = fragment_views(query@);
            let mut cond = rest.remove(0);
            assert(cond@ == conds[i as int]);
            if i > 0 {
                query.push(sql_fragment(" AND "));
            }
            let ghost mid = fragment_views(query@);
            let ghost cv = cond@;
            query.append(&mut cond.fragments);
            assert(fragment_views(query@) =~= mid + cv);
            assert(conds.take(i + 1).drop_last() =~= conds.take(i as int));
            assert(conds.take(i + 1).last() == conds[i as int]);
            if i == 0 {
                assert(conds.take(1) =~= seq![conds[0]]);
                assert(fragment_views(query@) =~= head + join_conditions(conds.take(i + 1)));
            } else {
                assert(mid =~= before + seq![sql(" AND ")]);
                assert(join_conditions(conds.take(i + 1)) == join_conditions(conds.take(i as int)) + seq![sql(" AND ")] + cv);
                assert(fragment_views(query@) =~= head + join_conditions(conds.take(i + 1)));
            }
            i = i + 1;
        }
        assert(conds.take(n as int) =~= conds);
    }
}

/// A condition of the form `<prefix><value><close>`.
pub open spec fn wrapped(prefix: &str, p: QueryParamView, close: &str) -> Seq<SqlFragmentView> {
    seq![sql(prefix), param(p), sql(close)]
}

/// A condition of the form `<prefix><value>`.
pub open spec fn compared(prefix: &str, p: QueryParamView) -> Seq<SqlFragmentView> {
    seq![sql(prefix), param(p)]
}

/// A condition that tests one value twice: `<prefix><value><middle><the same value><close>`.
pub open spec fn searched_twice(prefix: &str, p: QueryParamView, middle: &str, close: &str) -> Seq<SqlFragmentView> {
    seq![sql(prefix), param(p), sql(middle), SqlFragmentView::PrevParam, sql(close)]
}

/// A condition on two values: `<prefix><first><middle><second>`.
pub open spec fn two_values(prefix: &str, p1: QueryParamView, middle: &str, p2: QueryParamView) -> Seq<SqlFragmentView> {
    seq![sql(prefix), param(p1), sql(middle), param(p2)]
}

impl SqlCondition {
    /// The condition `<prefix><value><close>`.
    pub fn wrapped(prefix: &str, p: QueryParam, close: &str) -> (r: SqlCondition)
        ensures
            r@ == wrapped(prefix, p@, close),
    {
        let ghost v = p@;
        let mut f = SqlCondition::new();
        f.push_sql(prefix);
        f.push_param(p);
        f.push_sql(close);
        assert(f@ =~= wrapped(prefix, v, close));
        f
    }

    /// The condition `<prefix><value>`.
    pub fn compared(prefix: &str, p: QueryParam) -> (r: SqlCondition)
        ensures
            r@ == compared(prefix, p@),
    {
        let ghost v = p@;
        let mut f = SqlCondition::new();
        f.push_sql(prefix);
        f.push_param(p);
        assert(f@ =~= compared(prefix, v));
        f
    }

    /// The condition `<prefix><value><middle><the same value><close>`.
    pub fn searched_twice(prefix: &str, p: QueryParam, middle: &str, close: &str) -> (r: SqlCondition)
        ensures
            r@ == searched_twice(prefix, p@, middle, close),
    {
        let ghost v = p@;
        let mut f = SqlCondition::new();
        f.push_sql(prefix);
        f.push_param(p);
        f.push_sql(middle);
        f.push_prev_param();
        f.push_sql(close);
        assert(f@ =~= searched_twice(prefix, v, middle, close));
        f
    }

    /// The condition `<prefix><first><middle><second>`.
    pub fn two_values(prefix: &str, p1: QueryParam, middle: &str, p2: QueryParam) -> (r: SqlCondition)
        ensures
            r@ == two_values(prefix, p1@, middle, p2@),
    {
        let ghost v1 = p1@;
        let ghost v2 = p2@;
        let mut f = SqlCondition::new();
        f.push_sql(prefix);
        f.push_param(p1);
        f.push_sql(middle);
        f.push_param(p2);
        assert(f@ =~= two_values(prefix, v1, middle, v2));
        f
    }
}

/// The value of an optional query parameter.
pub open spec fn opt_param_view(o: Option<QueryParam>) -> Option<QueryParamView> {
    match o {
        Some(p) => Some(p@),
        None => None,
    }
}

/// One for a present value, none for an absent one.
pub open spec fn present<T>(o: Option<T>) -> int {
    if o is Some {
        1
    } else {
        0
    }
}

/// No condition for an absent value; `<prefix><value><close>` for a present one.
pub open spec fn when_wrapped(o: Option<QueryParamView>, prefix: &str, close: &str) -> Seq<Seq<SqlFragmentView>> {
    match o {
        Some(p) => seq![wrapped(prefix, p, close)],
        None => Seq::<Seq<SqlFragmentView>>::empty(),
    }
}

/// No condition for an absent value; `<prefix><value>` for a present one.
pub open spec fn when_compared(o: Option<QueryParamView>, prefix: &str) -> Seq<Seq<SqlFragmentView>> {
    match o {
        Some(p) => seq![compared(prefix, p)],
        None => Seq::<Seq<SqlFragmentView>>::empty(),
    }
}

/// No condition for an absent value; `<prefix><value><middle><the same value><close>` for a
/// present one.
pub open spec fn when_searched_twice(o: Option<QueryParamView>, prefix: &str, middle: &str, close: &str) -> Seq<Seq<SqlFragmentView>> {
    match o {
        Some(p) => seq![searched_twice(prefix, p, middle, close)],
        None => Seq::<Seq<SqlFragmentView>>::empty(),
    }
}

/// No condition for an absent value; `<prefix><value><middle><second>` for a present one.
pub open spec fn when_two_values(o: Option<QueryParamView>, prefix: &str, middle: &str, second: QueryParamView) -> Seq<Seq<SqlFragmentView>> {
    match o {
        Some(p) => seq![two_values(prefix, p, middle, second)],
        None => Seq::<Seq<SqlFragmentView>>::empty(),
    }
}

/// An optional list of identifiers as a query parameter.
pub open spec fn uuids_view(o: Option<Vec<Uuid>>) -> Option<QueryParamView> {
    match o {
        Some(v) => Some(QueryParamView::ArrayUuid(v@)),
        None => None,
    }
}

/// An optional text as a query parameter.
pub open spec fn string_view(o: Option<String>) -> Option<QueryParamView> {
    match o {
        Some(v) => Some(QueryParamView::String(v@)),
        None => None,
    }
}

/// An optional identifier as a query parameter.
pub open spec fn uuid_view(o: Option<Uuid>) -> Option<QueryParamView> {
    match o {
        Some(v) => Some(QueryParamView::Uuid(v)),
        None => None,
    }
}

/// An optional integer as a query parameter.
pub open spec fn int_view(o: Option<i64>) -> Option<QueryParamView> {
    match o {
        Some(v) => Some(QueryParamView::Int(v)),
        None => None,
    }
}

/// An optional date as a query parameter.
pub open spec fn date_view(o: Option<Date>) -> Option<QueryParamView> {
    match o {
        Some(v) => Some(QueryParamView::NaiveDate(v)),
        None => None,
    }
}

/// An optional contact kind as a query parameter.
pub open spec fn contact_type_view(o: Option<ContactType>) -> Option<QueryParamView> {
    match o {
        Some(v) => Some(QueryParamView::ContactType(v)),
        None => None,
    }
}

/// An optional submission status as a query parameter.
pub open spec fn status_view(o: Option<SubmissionStatus>) -> Option<QueryParamView> {
    match o {
        Some(v) => Some(QueryParamView::SubmissionStatus(v)),
        None => None,
    }
}

pub fn uuids_param(o: Option<Vec<Uuid>>) -> (r: Option<QueryParam>)
    ensures
        opt_param_view(r) == uuids_view(o),
{
    match o {
        Some(v) => Some(QueryParam::ArrayUuid(v)),
        None => None,
    }
}

pub fn string_param(o: Option<String>) -> (r: Option<QueryParam>)
    ensures
        opt_param_view(r) == string_view(o),
{
    match o {
        Some(v) => Some(QueryParam::String(v)),
        None => None,
    }
}

pub fn uuid_param(o: Option<Uuid>) -> (r: Option<QueryParam>)
    ensures
        opt_param_view(r) == uuid_view(o),
{
    match o {
        Some(v) => Some(QueryParam::Uuid(v)),
        None => None,
    }
}

pub fn int_param(o: Option<i64>) -> (r: Option<QueryParam>)
    ensures
        opt_param_view(r) == int_view(o),
{
    match o {
        Some(v) => Some(QueryParam::Int(v)),
        None => None,
    }
}

pub fn date_param(o: Option<Date>) -> (r: Option<QueryParam>)
    ensures
        opt_param_view(r) == date_view(o),
{
    match o {
        Some(v) => Some(QueryParam::NaiveDate(v)),
        None => None,
    }
}

pub fn contact_type_param(o: Option<ContactType>) -> (r: Option<QueryParam>)
    ensures
        opt_param_view(r) == contact_type_view(o),
{
    match o {
        Some(v) => Some(QueryParam::ContactType(v)),
        None => None,
    }
}

pub fn status_param(o: Option<SubmissionStatus>) -> (r: Option<QueryParam>)
    ensures
        opt_param_view(r) == status_view(o),
{
    match o {
        Some(v) => Some(QueryParam::SubmissionStatus(v)),
        None => None,
    }
}

impl SqlWhereClause {
    /// Adds `<prefix><value><close>` when the value is present.
    pub fn push_wrapped(&mut self, o: Option<QueryParam>, prefix: &str, close: &str)
        ensures
            final(self)@.with_keyword == old(self)@.with_keyword,
            final(self)@.conditions == old(self)@.conditions + when_wrapped(opt_param_view(o), prefix, close),
    {
        if let Some(p) = o {
            self.push_condition(SqlCondition::wrapped(prefix, p, close));
        }
        assert(self@.conditions =~= old(self)@.conditions + when_wrapped(opt_param_view(o), prefix, close));
    }

    /// Adds `<prefix><value>` when the value is present.
    pub fn push_compared(&mut self, o: Option<QueryParam>, prefix: &str)
        ensures
            final(self)@.with_keyword == old(self)@.with_keyword,
            final(self)@.conditions == old(self)@.conditions + when_compared(opt_param_view(o), prefix),
    {
        if let Some(p) = o {
            self.push_condition(SqlCondition::compared(prefix, p));
        }
        assert(self@.conditions =~= old(self)@.conditions + when_compared(opt_param_view(o), prefix));
    }

    /// Adds `<prefix><value><middle><the same value><close>` when the value is present.
    pub fn push_searched_twice(&mut self, o: Option<QueryParam>, prefix: &str, middle: &str, close: &str)
        ensures
            final(self)@.with_keyword == old(self)@.with_keyword,
            final(self)@.conditions == old(self)@.conditions + when_searched_twice(opt_param_view(o), prefix, middle, close),
    {
        if let Some(p) = o {
            self.push_condition(SqlCondition::searched_twice(prefix, p, middle, close));
        }
        assert(self@.conditions =~= old(self)@.conditions + when_searched_twice(opt_param_view(o), prefix, middle, close));
    }

    /// Adds `<prefix><value><middle><second>` when the value is present.
    pub fn push_two_values(&mut self, o: Option<QueryParam>, prefix: &str, middle: &str, second: QueryParam)
        ensures
            final(self)@.with_keyword == old(self)@.with_keyword,
            final(self)@.conditions == old(self)@.conditions + when_two_values(opt_param_view(o), prefix, middle, second@),
    {
        let ghost v2 = second@;
        if let Some(p) = o {
            self.push_condition(SqlCondition::two_values(prefix, p, middle, second));
        }
        assert(self@.conditions =~= old(self)@.conditions + when_two_values(opt_param_view(o), prefix, middle, v2));
    }
}

/// A piece of a query as it is sent: text, or a value bound to the next placeholder.
#[derive(Debug, PartialEq)]
pub enum BoundPiece {
    Text(String),
    Bind(QueryParam),
}

/// The content of a piece of a query as it is sent.
pub enum BoundPieceView {
    Text(Seq<char>),
    Bind(QueryParamView),
}

impl View for BoundPiece {
    type V = BoundPieceView;

    open spec fn view(&self) -> BoundPieceView {
        match self {
            BoundPiece::Text(t) => BoundPieceView::Text(t@),
            BoundPiece::Bind(p) => BoundPieceView::Bind(p@),
        }
    }
}

/// The number of values that a sequence of query pieces binds.
pub open spec fn bound_count(s: Seq<SqlFragmentView>) -> nat
    decreases s.len(),
{
    if s.len() == 0 {
        0
    } else {
        bound_count(s.drop_last()) + (if s.last() is Param { 1nat } else { 0nat })
    }
}

/// How a query piece is sent after `n` values have been bound: text as it is, a value bound
/// to the next placeholder, and a reference to the value bound just before as that value's
/// placeholder `$n`.
pub open spec fn sent_piece(f: SqlFragmentView, n: nat) -> BoundPieceView {
    match f {
        SqlFragmentView::Sql(t) => BoundPieceView::Text(t),
        SqlFragmentView::Param(p) => BoundPieceView::Bind(p),
        SqlFragmentView::PrevParam => BoundPieceView::Text(seq!['$'] + decimal(n)),
    }
}

/// The pieces of a query as they are sent: each reference to the value bound just before
/// becomes the placeholder numbered by the values bound up to it.
pub fn number_placeholders(fragments: Vec<SqlFragment>) -> (r: Vec<BoundPiece>)
    ensures
        r@.len() == fragments@.len(),
        forall|i: int| 0 <= i < r@.len() ==> (#[trigger] r@[i])@ == sent_piece(
            fragments@[i]@,
            bound_count(fragment_views(fragments@).take(i)),
        ),
{
    let ghost frags = fragments@;
    let ghost views = fragment_views(frags);
    let n = fragments.len();
    let mut rest = fragments;
    let mut out: Vec<BoundPiece> = Vec::new();
    let mut count: usize = 0;
    let mut i: usize = 0;
    while i < n
        invariant
            n == frags.len(),
            views == fragment_views(frags),
            i <= n,
            count <= i,
            count == bound_count(views.take(i as int)),
            rest@ == frags.subrange(i as int, n as int),
            out@.len() == i,
            forall|k: int| 0 <= k < i ==> (#[trigger] out@[k])@ == sent_piece(frags[k]@, bound_count(views.take(k))),
        decreases n - i,
    {
        let f = rest.remove(0);
        let ghost before = count as nat;
        let ghost fv = f@;
        assert(f == frags[i as int]);
        assert(views.take(i + 1).drop_last() =~= views.take(i as int));
        assert(views.take(i + 1).last() == f@);
        let piece = match f {
            SqlFragment::Sql(t) => BoundPiece::Text(t),
            SqlFragment::Param(p) => {
                count = count + 1;
                BoundPiece::Bind(p)
            },
            SqlFragment::PrevParam => {
                let mut t = String::from_str("$");
                proof {
                    reveal_strlit("$");
                }
                t.append(u64_text(count as u64).as_str());
                assert(t@ =~= seq!['$'] + decimal(count as nat));
                BoundPiece::Text(t)
            },
        };
        assert(piece@ == sent_piece(fv, before));
        out.push(piece);
        assert(out@[i as int]@ == sent_piece(frags[i as int]@, bound_count(views.take(i as int))));
        assert(rest@ =~= frags.subrange(i + 1, n as int));
        i = i + 1;
    }
    out
}

} // verus!
