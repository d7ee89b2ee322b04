//! Page selection for list queries, and the page summary returned with a response.
use vstd::prelude::*;
use crate::error::Error;
use crate::text::{decimal, u64_text};
use crate::query::{fragment_views, param, sql, sql_fragment, QueryParam, QueryParamView, SqlFragment, SqlFragmentView};

verus! {

/// The page size used when a request names none.
pub const DEFAULT_PAGE_SIZE: u32 = 50;

/// Which page of results a request asks for (pages count from 1), and its size.
pub struct PaginationConfig {
    pub p: u32,
    pub size: Option<u32>,
}

impl Default for PaginationConfig {
    fn default() -> (r: Self)
        ensures
            r.p == 1,
            r.size == Some(DEFAULT_PAGE_SIZE),
    {
        PaginationConfig { p: 1, size: Some(DEFAULT_PAGE_SIZE) }
    }
}

impl PaginationConfig {
    pub fn new(p: u32, size: Option<u32>) -> (r: Self)
        ensures
            r.p == p,
            r.size == size,
    {
        PaginationConfig { p, size }
    }

    /// The page size in effect: the requested one, or the default.
    pub open spec fn effective_size(self) -> u32 {
        match self.size {
            Some(s) => s,
            None => DEFAULT_PAGE_SIZE,
        }
    }

    /// The `LIMIT` and `OFFSET` pieces that select the page: the limit is the page size and
    /// the offset skips the pages before it.
    pub open spec fn limit_offset(self) -> Seq<SqlFragmentView> {
        seq![
            sql(" LIMIT "),
            param(QueryParamView::Int(self.effective_size() as i64)),
            sql(" OFFSET "),
            param(QueryParamView::Int(((self.p - 1) * self.effective_size()) as i64)),
        ]
    }

    /// Appends the `LIMIT` and `OFFSET` of the page to a query. Page 0 is refused.
    pub fn append_into_query_builder(&self, query: &mut Vec<SqlFragment>) -> (r: Result<(), Error>)
        requires
            self.p >= 1 ==> (self.p - 1) * self.effective_size() <= u32::MAX,
        ensures
            self.p == 0 <==> r is Err,
            r matches Err(e) ==> (e matches Error::InvalidRequest(d, s)
                && d@ == "Page number must be greater than zero"@ && s@ == "QueryDb::query"@),
            r is Err ==> final(query)@ == old(query)@,
            r is Ok ==> fragment_views(final(query)@) == fragment_views(old(query)@) + self.limit_offset(),
    {
        if self.p == 0 {
            return Err(Error::InvalidRequest(
                String::from_str("Page number must be greater than zero"),
                String::from_str("QueryDb::query"),
            ));
        }
        let size = match self.size {
            Some(s) => s,
            None => DEFAULT_PAGE_SIZE,
        };
        let offset = (self.p - 1) * size;
        let ghost start = fragment_views(query@);
        query.push(sql_fragment(" LIMIT "));
        query.push(SqlFragment::Param(QueryParam::Int(size as i64)));
        query.push(sql_fragment(" OFFSET "));
        query.push(SqlFragment::Param(QueryParam::Int(offset as i64)));
        assert(fragment_views(query@) =~= start + self.limit_offset());
        Ok(())
    }
}

/// The integer that a query piece passes as its parameter, if it passes one.
pub open spec fn int_passed(f: SqlFragmentView) -> Option<int> {
    match f {
        SqlFragmentView::Param(QueryParamView::Int(i)) => Some(i as int),
        _ => None,
    }
}

/// Pages tile the results: every page is limited to the page size in effect (the requested
/// one, else the default), the first page starts at the first result, and each page starts
/// where the one before it ends.
pub proof fn lemma_pages_tile(p: u32, size: Option<u32>)
    requires
        p >= 1,
        p < u32::MAX,
        (p as int) * ((PaginationConfig { p, size }).effective_size() as int) <= u32::MAX,
    ensures
        int_passed((PaginationConfig { p, size }).limit_offset()[1])
            == Some(if size is Some { size->0 as int } else { DEFAULT_PAGE_SIZE as int }),
        int_passed((PaginationConfig { p: 1, size }).limit_offset()[3]) == Some(0int),
        int_passed((PaginationConfig { p, size }).limit_offset()[3]) is Some,
        int_passed((PaginationConfig { p: (p + 1) as u32, size }).limit_offset()[3])
            == Some(int_passed((PaginationConfig { p, size }).limit_offset()[3])->0
                + int_passed((PaginationConfig { p, size }).limit_offset()[1])->0),
{
    let z = (PaginationConfig { p, size }).effective_size() as int;
    let c = p as int;
    assert(0 * z == 0) by (nonlinear_arith);
    assert((PaginationConfig { p: 1, size }).effective_size() as int == z);
    assert((c - 1) * z + z == c * z) by (nonlinear_arith);
    assert(0 <= (c - 1) * z <= c * z) by (nonlinear_arith)
        requires
            c >= 1,
            z >= 0,
    ;
}

/// The number of pages that `total` results fill at `size` results per page. With a page
/// size of 0 there is no page when there is no result, and `u32::MAX` pages otherwise.
pub open spec fn page_count(total: u32, size: u32) -> u32 {
    if size == 0 {
        if total == 0 { 0 } else { u32::MAX }
    } else {
        (total / size + (if total % size == 0 { 0u32 } else { 1u32 })) as u32
    }
}

/// A summary of the pages of a result: first and last page, the pages next to the
/// current one where they exist, the page size and the number of results.
pub struct PaginationType {
    first_p: u32,
    last_p: u32,
    next_p: Option<u32>,
    prev_p: Option<u32>,
    size: u32,
    total: u32,
}

/// The contents of a page summary.
pub struct PaginationTypeView {
    pub first_p: u32,
    pub last_p: u32,
    pub next_p: Option<u32>,
    pub prev_p: Option<u32>,
    pub size: u32,
    pub total: u32,
}

impl View for PaginationType {
    type V = PaginationTypeView;

    closed spec fn view(&self) -> PaginationTypeView {
        PaginationTypeView {
            first_p: self.first_p,
            last_p: self.last_p,
            next_p: self.next_p,
            prev_p: self.prev_p,
            size: self.size,
            total: self.total,
        }
    }
}

/// With a nonzero page size, the pages hold every result, and the last page is not empty.
pub proof fn lemma_page_count_covers(total: u32, size: u32)
    requires
        size > 0,
    ensures
        page_count(total, size) * size >= total,
        total == 0 <==> page_count(total, size) == 0,
        page_count(total, size) > 0 ==> (page_count(total, size) - 1) * size < total,
        total % size != 0 ==> total / size + 1 <= u32::MAX,
{
    let q = total / size;
    let r = total % size;
    assert(total == q * size + r && 0 <= r < size) by (nonlinear_arith)
        requires
            size > 0,
            q == total / size,
            r == total % size,
    ;
    assert(q * size <= total) by (nonlinear_arith)
        requires
            total == q * size + r,
            r >= 0,
    ;
    if r == 0 {
        assert(page_count(total, size) == q);
        assert(total == 0 <==> q == 0) by (nonlinear_arith)
            requires
                total == q * size,
                size > 0,
                q >= 0,
        ;
        if q > 0 {
            assert((q - 1) * size < total) by (nonlinear_arith)
                requires
                    total == q * size,
                    size > 0,
                    q > 0,
            ;
        }
    } else {
        assert(q + 1 <= u32::MAX) by (nonlinear_arith)
            requires
                size >= 1,
                total <= u32::MAX,
                total == q * size + r,
                r >= 1,
                q >= 0,
        ;
        assert(page_count(total, size) == q + 1);
        assert((q + 1) * size >= total) by (nonlinear_arith)
            requires
                total == q * size + r,
                r < size,
        ;
    }
}

/// The summary of page `current_p` of `total` results at `size` results per page: the first
/// page is 1, the last is the page count, and the next and previous pages are those next
/// to the current one that lie between them.
pub open spec fn summary(current_p: u32, size: u32, total: u32) -> PaginationTypeView {
    PaginationTypeView {
        first_p: 1,
        last_p: page_count(total, size),
        next_p: if current_p < page_count(total, size) { Some((current_p + 1) as u32) } else { None },
        prev_p: if current_p > 1 { Some((current_p - 1) as u32) } else { None },
        size,
        total,
    }
}

/// The neighbouring pages of a summary are next to the current page and lie between its
/// first and its last page (the previous page only while the current one does).
pub open spec fn neighbours_within(v: PaginationTypeView, current_p: u32) -> bool {
    &&& v.next_p matches Some(n) ==> n == current_p + 1 && v.first_p <= n <= v.last_p
    &&& v.prev_p matches Some(n) ==> n == current_p - 1 && v.first_p <= n
    &&& current_p <= v.last_p ==> (v.prev_p matches Some(n) ==> n <= v.last_p)
}

/// Every summary keeps its neighbouring pages within its bounds.
pub proof fn lemma_summary_neighbours(current_p: u32, size: u32, total: u32)
    ensures
        neighbours_within(summary(current_p, size, total), current_p),
{
}

/// With a nonzero page size, the summary of page `current_p` of `total` results: there is a
/// next page, the following one, exactly when results remain after the current page; there
/// is a previous page, the one before, exactly when the current page is not the first; the
/// last page holds the last result, and there is no last page when there are no results.
pub proof fn lemma_summary_pages(current_p: u32, size: u32, total: u32)
    requires
        size > 0,
    ensures
        summary(current_p, size, total).next_p is Some <==> (current_p as int) * (size as int) < total as int,
        summary(current_p, size, total).next_p matches Some(n) ==> n == current_p + 1,
        summary(current_p, size, total).prev_p is Some <==> current_p > 1,
        summary(current_p, size, total).prev_p matches Some(n) ==> n == current_p - 1,
        summary(current_p, size, total).first_p == 1,
        (summary(current_p, size, total).last_p as int) * (size as int) >= total as int,
        total > 0 ==> (summary(current_p, size, total).last_p as int - 1) * (size as int) < total as int,
        total == 0 ==> summary(current_p, size, total).last_p == 0,
        summary(current_p, size, total).size == size,
        summary(current_p, size, total).total == total,
{
    lemma_page_count_covers(total, size);
    let pc = page_count(total, size) as int;
    let c = current_p as int;
    let z = size as int;
    let t = total as int;
    if c < pc {
        assert(c * z <= (pc - 1) * z) by (nonlinear_arith)
            requires
                c <= pc - 1,
                z > 0,
        ;
    } else {
        assert(c * z >= pc * z) by (nonlinear_arith)
            requires
                c >= pc,
                z > 0,
        ;
    }
}

impl PaginationType {
    /// Summarises page `current_p` of `total` results at `size` results per page.
    pub fn new(current_p: u32, size: u32, total: u32) -> (r: Self)
        ensures
            r@ == summary(current_p, size, total),
    {
        let page_count: u32 = if size == 0 {
            if total == 0 { 0 } else { u32::MAX }
        } else {
            let whole = total / size;
            if total % size == 0 {
                whole
            } else {
                proof {
                    lemma_page_count_covers(total, size);
                }
                whole + 1
            }
        };
        PaginationType {
            first_p: 1,
            last_p: page_count,
            next_p: if current_p < page_count { Some(current_p + 1) } else { None },
            prev_p: if current_p > 1 { Some(current_p - 1) } else { None },
            size,
            total,
        }
    }

    pub fn first_p(&self) -> (r: u32)
        ensures
            r == self@.first_p,
    {
        self.first_p
    }

    pub fn last_p(&self) -> (r: u32)
        ensures
            r == self@.last_p,
    {
        self.last_p
    }

    pub fn next_p(&self) -> (r: Option<u32>)
        ensures
            r == self@.next_p,
    {
        self.next_p
    }

    pub fn prev_p(&self) -> (r: Option<u32>)
        ensures
            r == self@.prev_p,
    {
        self.prev_p
    }

    pub fn size(&self) -> (r: u32)
        ensures
            r == self@.size,
    {
        self.size
    }

    pub fn total(&self) -> (r: u32)
        ensures
            r == self@.total,
    {
        self.total
    }
}

/// An optional page number as `Debug` writes it: `Some(<n>)` or `None`.
pub open spec fn page_debug(o: Option<u32>) -> Seq<char> {
    match o {
        Some(p) => "Some("@ + decimal(p as nat) + ")"@,
        None => "None"@,
    }
}

/// The text of a page summary:
/// `{ first: <f>, last: <l>, next: <n>, prev: <p>, size: <s>, total: <t> }`.
pub open spec fn pagination_text(v: PaginationTypeView) -> Seq<char> {
    "{ first: "@ + decimal(v.first_p as nat) + ", last: "@ + decimal(v.last_p as nat) + ", next: "@
        + page_debug(v.next_p) + ", prev: "@ + page_debug(v.prev_p) + ", size: "@ + decimal(v.size as nat)
        + ", total: "@ + decimal(v.total as nat) + " }"@
}

/// Writes an optional page number as `Debug` does.
fn page_debug_text(o: Option<u32>) -> (r: String)
    ensures
        r@ == page_debug(o),
{
    match o {
        Some(p) => {
            let mut r = String::from_str("Some(");
            r.append(u64_text(p as u64).as_str());
            r.append(")");
            r
        },
        None => String::from_str("None"),
    }
}

impl PaginationType {
    /// The text of the summary.
    pub fn to_string(&self) -> (r: String)
        ensures
            r@ == pagination_text(self@),
    {
        let mut r = String::from_str("{ first: ");
        r.append(u64_text(self.first_p as u64).as_str());
        r.append(", last: ");
        r.append(u64_text(self.last_p as u64).as_str());
        r.append(", next: ");
        r.append(page_debug_text(self.next_p).as_str());
        r.append(", prev: ");
        r.append(page_debug_text(self.prev_p).as_str());
        r.append(", size: ");
        r.append(u64_text(self.size as u64).as_str());
        r.append(", total: ");
        r.append(u64_text(self.total as u64).as_str());
        r.append(" }");
        r
    }
}

} // verus!
