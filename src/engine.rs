use vstd::prelude::*;

use crate::fragment::{
    count_sql, marker_free, order_text, window_text, QueryFragment, SqlParam,
};
use crate::window::{
    beyond_end, compute_window, params_valid, request_window, PaginationError, Window,
};

verus! {

/// How a round trip to the store failed.
#[derive(Clone, Copy, Debug, PartialEq, Eq, Structural)]
pub enum StoreError {
    Database,
    Cancelled,
}

/// One page of rows, or the news that the requested page lies past the end.
#[derive(Debug)]
pub enum PaginateResult<T> {
    Success { records: Vec<T>, total_count: i64, window: Window },
    NotFound,
}

/// What follows the count query: the call is over, or the rows of the page
/// are to be fetched with the given query.
#[derive(Debug)]
pub enum CountStep<T> {
    Done(Result<PaginateResult<T>, PaginationError>),
    FetchRows(QueryFragment),
}

/// The failure of a pagination call that a store failure causes.
pub open spec fn store_failure_spec(e: StoreError) -> PaginationError {
    match e {
        StoreError::Database => PaginationError::DatabaseError,
        StoreError::Cancelled => PaginationError::Cancelled,
    }
}

pub fn store_failure(e: StoreError) -> (r: PaginationError)
    ensures
        r == store_failure_spec(e),
{
    match e {
        StoreError::Database => PaginationError::DatabaseError,
        StoreError::Cancelled => PaginationError::Cancelled,
    }
}

/// The text of a fragment once it is ordered: as it is when it already holds
/// an ordering clause, else with one on `column`.
pub open spec fn ordered_sql(f: QueryFragment, column: Seq<char>) -> Seq<char> {
    if f.ordered {
        f.sql@
    } else {
        f.sql@ + order_text(column)
    }
}

/// A validated request: the filtered, ordered fragment and the window asked of it.
pub struct PagePlan {
    pub fragment: QueryFragment,
    pub window: Window,
}

impl PagePlan {
    pub open spec fn wf(&self) -> bool {
        &&& self.fragment.wf()
        &&& self.fragment.ordered
        &&& !self.fragment.windowed
        &&& self.fragment.params@.len() + 2 <= usize::MAX
        &&& self.window.wf()
    }

    /// The text of the data query.
    pub open spec fn data_sql(&self) -> Seq<char> {
        if self.window.limit is Some {
            self.fragment.sql@ + window_text(self.fragment.params@.len())
        } else {
            self.fragment.sql@
        }
    }

    /// The values bound to the data query.
    pub open spec fn data_params(&self) -> Seq<SqlParam> {
        match self.window.limit {
            Some(l) => self.fragment.params@.push(SqlParam::Int64(l)).push(
                SqlParam::Int64(self.window.offset as i64),
            ),
            None => self.fragment.params@,
        }
    }

    /// Checks the page and the limit and orders the fragment (on `order_column`
    /// when it holds no ordering clause yet). Fails with `InvalidParameter`,
    /// before any query, when a limit is supplied and it, or the page given
    /// with it, is not positive; without a limit the page is not read.
    pub fn new(fragment: QueryFragment, order_column: &str, page: Option<i64>, limit: Option<i64>) -> (r: Result<PagePlan, PaginationError>)
        requires
            fragment.wf(),
            !fragment.windowed,
            marker_free(order_column@),
            fragment.params@.len() + 2 <= usize::MAX,
        ensures
            r is Ok <==> params_valid(page, limit),
            !params_valid(page, limit) ==> r == Err::<PagePlan, PaginationError>(
                PaginationError::InvalidParameter,
            ),
            r matches Ok(plan) ==> {
                &&& plan.wf()
                &&& plan.window == request_window(page, limit)
                &&& plan.fragment.sql@ == ordered_sql(fragment, order_column@)
                &&& plan.fragment.params@ == fragment.params@
            },
    {
        let window = match compute_window(page, limit) {
            Ok(w) => w,
            Err(e) => return Err(e),
        };
        let mut fragment = fragment;
        if !fragment.ordered {
            fragment.append_order(order_column);
        }
        Ok(PagePlan { fragment, window })
    }

    /// The query counting every row of the filtered fragment, with its bound values.
    pub fn count_query(&self) -> (r: QueryFragment)
        requires
            self.wf(),
        ensures
            r.wf(),
            r.sql@ == count_sql(self.fragment.sql@),
            r.params@ == self.fragment.params@,
    {
        self.fragment.count_query()
    }

    /// Decides what the count of the filtered rows leads to: a failed count
    /// fails the call; no rows give an empty page; a page past the last row
    /// gives `NotFound`; else the rows of the window are to be fetched.
    pub fn on_count<T>(&self, count: Result<i64, StoreError>) -> (r: CountStep<T>)
        requires
            self.wf(),
            count matches Ok(n) ==> n >= 0,
        ensures
            count matches Err(e) ==> (r matches CountStep::Done(Err(f)) && f == store_failure_spec(
                e,
            )),
            count == Ok::<i64, StoreError>(0) ==> (r matches CountStep::Done(
                Ok(PaginateResult::Success { records, total_count, window }),
            ) && records@.len() == 0 && total_count == 0 && window == self.window),
            count matches Ok(n) ==> (beyond_end(self.window, n as int) <==> (r matches CountStep::Done(
                Ok(PaginateResult::NotFound),
            ))),
            count matches Ok(n) ==> ((n > 0 && !beyond_end(self.window, n as int)) <==> r is FetchRows),
            r matches CountStep::FetchRows(q) ==> (q.wf() && q.sql@ == self.data_sql() && q.params@
                == self.data_params()),
    {
        let n = match count {
            Ok(n) => n,
            Err(e) => return CountStep::Done(Err(store_failure(e))),
        };
        if n == 0 {
            return CountStep::Done(
                Ok(PaginateResult::Success { records: Vec::new(), total_count: 0, window: self.window }),
            );
        }
        match self.window.limit {
            None => CountStep::FetchRows(self.fragment.duplicate()),
            Some(l) => {
                if self.window.offset >= n as i128 {
                    CountStep::Done(Ok(PaginateResult::NotFound))
                } else {
                    CountStep::FetchRows(self.fragment.windowed(l, self.window.offset as i64))
                }
            },
        }
    }

    /// The page made of the rows that the data query returned.
    pub fn on_rows<T>(&self, total_count: i64, rows: Result<Vec<T>, StoreError>) -> (r: Result<PaginateResult<T>, PaginationError>)
        ensures
            rows matches Err(e) ==> r == Err::<PaginateResult<T>, PaginationError>(
                store_failure_spec(e),
            ),
            rows matches Ok(v) ==> (r matches Ok(
                PaginateResult::Success { records, total_count: t, window },
            ) && records == v && t == total_count && window == self.window),
    {
        match rows {
            Ok(records) => Ok(PaginateResult::Success { records, total_count, window: self.window }),
            Err(e) => Err(store_failure(e)),
        }
    }
}

} // verus!
