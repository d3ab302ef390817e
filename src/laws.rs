use vstd::prelude::*;

use crate::engine::PagePlan;
use crate::fragment::{count_prefix, count_sql, SqlParam};
use crate::window::{beyond_end, max_offset, page_offset, request_window, Window};

verus! {

/// The rows that a window selects from the ordered, filtered rows `rows`: what
/// the store returns for the data query of that window.
pub open spec fn window_rows<T>(rows: Seq<T>, w: Window) -> Seq<T> {
    let n = rows.len() as int;
    let start = if w.offset < n {
        w.offset as int
    } else {
        n
    };
    let end = match w.limit {
        Some(l) => if w.offset + l < n {
            (w.offset + l) as int
        } else {
            n
        },
        None => n,
    };
    rows.subrange(start, end)
}

/// The number of pages of `limit` rows that `total` rows fill.
pub open spec fn last_page(total: int, limit: int) -> int {
    (total + limit - 1) / limit
}

/// The rows of pages `1..=k` of `limit` rows each, one after the other.
pub open spec fn pages_concat<T>(rows: Seq<T>, limit: i64, k: nat) -> Seq<T>
    decreases k,
{
    if k == 0 {
        Seq::empty()
    } else {
        pages_concat(rows, limit, (k - 1) as nat) + window_rows(
            rows,
            request_window(Some(k as i64), Some(limit)),
        )
    }
}

proof fn lemma_last_page_bounds(total: int, limit: int)
    requires
        total >= 0,
        limit >= 1,
    ensures
        0 <= last_page(total, limit) <= total,
        last_page(total, limit) * limit >= total,
        last_page(total, limit) * limit <= total + limit - 1,
{
    let q = last_page(total, limit);
    let m = total + limit - 1;
    assert(q * limit <= m && m < q * limit + limit) by (nonlinear_arith)
        requires
            q == m / limit,
            limit >= 1,
            m >= 0,
    ;
    assert(0 <= q <= total) by (nonlinear_arith)
        requires
            q * limit <= m,
            m == total + limit - 1,
            limit >= 1,
            total >= 0,
            m < q * limit + limit,
    ;
    assert(q * limit >= total) by (nonlinear_arith)
        requires
            m < q * limit + limit,
            m == total + limit - 1,
    ;
}

proof fn lemma_page_starts_before_end(total: int, limit: int, k: int)
    requires
        total >= 0,
        limit >= 1,
        1 <= k <= last_page(total, limit),
    ensures
        0 <= (k - 1) * limit < total,
{
    lemma_last_page_bounds(total, limit);
    let q = last_page(total, limit);
    assert(0 <= (k - 1) * limit < total) by (nonlinear_arith)
        requires
            1 <= k <= q,
            q * limit <= total + limit - 1,
            limit >= 1,
    ;
}

proof fn lemma_pages_prefix<T>(rows: Seq<T>, limit: i64, k: nat)
    requires
        limit >= 1,
        rows.len() <= i64::MAX,
        k <= last_page(rows.len() as int, limit as int),
    ensures
        pages_concat(rows, limit, k) == rows.subrange(
            0,
            if k * limit < rows.len() {
                k * limit
            } else {
                rows.len() as int
            },
        ),
    decreases k,
{
    let n = rows.len() as int;
    lemma_last_page_bounds(n, limit as int);
    if k == 0 {
        assert(pages_concat(rows, limit, 0) =~= rows.subrange(0, 0));
    } else {
        lemma_pages_prefix(rows, limit, (k - 1) as nat);
        let off = (k - 1) * limit;
        lemma_page_starts_before_end(n, limit as int, k as int);
        assert(0 <= off <= max_offset()) by (nonlinear_arith)
            requires
                off == (k - 1) * limit,
                1 <= k <= i64::MAX,
                1 <= limit <= i64::MAX,
        ;
        let w = request_window(Some(k as i64), Some(limit));
        assert(w.offset == off);
        assert(off + limit == k * limit) by (nonlinear_arith)
            requires
                off == (k - 1) * limit,
        ;
        let end = if k * limit < n {
            k * limit
        } else {
            n
        };
        assert(window_rows(rows, w) == rows.subrange(off, end));
        assert(rows.subrange(0, off) + rows.subrange(off, end) =~= rows.subrange(0, end));
    }
}

/// Fetching pages `1, 2, ...` up to the last page that `limit` rows each fill
/// yields, one after the other, exactly the filtered and ordered rows: no page
/// in that range is past the end, and no row is left out or repeated.
pub proof fn lemma_pages_cover_rows<T>(rows: Seq<T>, limit: i64)
    requires
        limit >= 1,
        rows.len() <= i64::MAX,
    ensures
        forall|p: i64|
            1 <= p <= last_page(rows.len() as int, limit as int) ==> !beyond_end(
                #[trigger] request_window(Some(p), Some(limit)),
                rows.len() as int,
            ),
        pages_concat(rows, limit, last_page(rows.len() as int, limit as int) as nat) == rows,
{
    let n = rows.len() as int;
    let q = last_page(n, limit as int);
    lemma_last_page_bounds(n, limit as int);
    assert forall|p: i64| 1 <= p <= q implies !beyond_end(
        #[trigger] request_window(Some(p), Some(limit)),
        n,
    ) by {
        lemma_page_starts_before_end(n, limit as int, p as int);
        assert(page_offset(p as int, limit as int) == (p - 1) * limit);
    }
    lemma_pages_prefix(rows, limit, q as nat);
    assert(rows.subrange(0, n) =~= rows);
}

/// The count query and the data query of a plan agree on the filter: the
/// count wraps the whole filtered, ordered text, the data query starts with
/// that same text, and both bind the same values to it.
pub proof fn lemma_count_and_data_share_filter(plan: PagePlan)
    ensures
        count_sql(plan.fragment.sql@).subrange(
            count_prefix().len() as int,
            (count_prefix().len() + plan.fragment.sql@.len()) as int,
        ) == plan.fragment.sql@,
        plan.data_sql().subrange(0, plan.fragment.sql@.len() as int) == plan.fragment.sql@,
        plan.data_params().subrange(0, plan.fragment.params@.len() as int)
            == plan.fragment.params@,
{
    let f = plan.fragment.sql@;
    assert(count_sql(f).subrange(count_prefix().len() as int, (count_prefix().len() + f.len()) as int)
        =~= f);
    assert(plan.data_sql().subrange(0, f.len() as int) =~= f);
    assert(plan.data_params().subrange(0, plan.fragment.params@.len() as int)
        =~= plan.fragment.params@);
}

/// The data query of page `page` of `limit` rows binds the limit and then the
/// offset `(page - 1) * limit`, exactly, after the filter's own values.
pub proof fn lemma_data_query_binds_page_offset(plan: PagePlan, page: i64, limit: i64)
    requires
        page >= 1,
        limit >= 1,
        plan.window == request_window(Some(page), Some(limit)),
        (page - 1) * limit <= i64::MAX,
    ensures
        plan.window.offset == (page - 1) * limit,
        plan.data_params() == plan.fragment.params@.push(SqlParam::Int64(limit)).push(
            SqlParam::Int64(((page - 1) * limit) as i64),
        ),
{
    assert(0 <= (page - 1) * limit) by (nonlinear_arith)
        requires
            page >= 1,
            limit >= 1,
    ;
}

} // verus!
