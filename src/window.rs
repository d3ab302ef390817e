use vstd::prelude::*;

verus! {

/// Why a pagination call failed.
#[derive(Clone, Copy, Debug, PartialEq, Eq, Structural)]
pub enum PaginationError {
    /// A page or a limit that is not a positive integer was supplied.
    InvalidParameter,
    /// The count query or the data query failed in the store.
    DatabaseError,
    /// The caller cancelled a round trip, or it timed out.
    Cancelled,
}

/// The rows of a result that one page covers: skip `offset`, then take at
/// most `limit` (all that remain when there is no limit).
#[derive(Clone, Copy, Debug, PartialEq, Eq, Structural)]
pub struct Window {
    pub offset: i128,
    pub limit: Option<i64>,
}

/// The largest offset that a page and a limit of type `i64` can produce.
pub open spec fn max_offset() -> int {
    (i64::MAX - 1) * i64::MAX
}

/// The number of rows before page `page` (counted from 1) of pages of `limit` rows.
pub open spec fn page_offset(page: int, limit: int) -> int {
    (page - 1) * limit
}

/// Without a limit every request is valid (the page is not read); with one,
/// the limit and any page supplied are positive integers.
pub open spec fn params_valid(page: Option<i64>, limit: Option<i64>) -> bool {
    match limit {
        None => true,
        Some(l) => l > 0 && (page matches Some(p) ==> p > 0),
    }
}

/// The window that a valid request asks for: without a limit, every row; with
/// one, the page (the first when none is given) of that many rows.
pub open spec fn request_window(page: Option<i64>, limit: Option<i64>) -> Window {
    match limit {
        None => Window { offset: 0, limit: None },
        Some(l) => {
            let p: int = match page {
                Some(p) => p as int,
                None => 1,
            };
            Window { offset: page_offset(p, l as int) as i128, limit: Some(l) }
        },
    }
}

/// The window asks for a page that starts past the last of `total` rows.
pub open spec fn beyond_end(w: Window, total: int) -> bool {
    &&& w.limit is Some
    &&& total > 0
    &&& w.offset >= total
}

impl Window {
    pub open spec fn wf(&self) -> bool {
        &&& 0 <= self.offset <= max_offset()
        &&& (self.limit matches Some(l) ==> l > 0)
    }
}

/// The number of rows before page `page` of pages of `limit` rows, exactly.
pub fn compute_offset(page: i64, limit: i64) -> (r: i128)
    requires
        page >= 1,
        limit >= 1,
    ensures
        r == page_offset(page as int, limit as int),
        0 <= r <= max_offset(),
{
    let skipped: i128 = (page as i128) - 1;
    assert(0 <= skipped * (limit as i128) <= max_offset()) by (nonlinear_arith)
        requires
            0 <= skipped <= i64::MAX - 1,
            1 <= limit <= i64::MAX,
    ;
    skipped * (limit as i128)
}

/// The window for a page and a limit: every row when there is no limit, else
/// the page's rows, or `InvalidParameter` when the limit or the page supplied
/// with it is not positive.
pub fn compute_window(page: Option<i64>, limit: Option<i64>) -> (r: Result<Window, PaginationError>)
    ensures
        params_valid(page, limit) ==> r == Ok::<Window, PaginationError>(request_window(page, limit)),
        !params_valid(page, limit) ==> r == Err::<Window, PaginationError>(
            PaginationError::InvalidParameter,
        ),
        r matches Ok(w) ==> w.wf(),
{
    match limit {
        None => Ok(Window { offset: 0, limit: None }),
        Some(l) => {
            let page_ok = match page {
                Some(p) => p > 0,
                None => true,
            };
            if !page_ok || l <= 0 {
                return Err(PaginationError::InvalidParameter);
            }
            let p: i64 = match page {
                Some(p) => p,
                None => 1,
            };
            let offset = compute_offset(p, l);
            Ok(Window { offset, limit: Some(l) })
        },
    }
}

} // verus!
