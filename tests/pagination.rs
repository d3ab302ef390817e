use lessons_api::{
    page_status, word_fragment, ApiStatus, WordQuery, compute_offset, compute_window, content_range, lesson_fragment, pagination_headers,
    textbook_fragment, CountStep, LessonQuery, PagePlan, PaginateResult, PaginationError,
    QueryFragment, SqlParam, StoreError, Window,
};

/// Runs one pagination call against `rows`, which stand for the filtered,
/// ordered rows of the store: the count is their number, and the data query
/// takes the rows its bound limit and offset select.
fn run_page(
    rows: &[u32],
    fragment: QueryFragment,
    page: Option<i64>,
    limit: Option<i64>,
) -> (Result<PaginateResult<u32>, PaginationError>, usize) {
    let mut queries = 0;
    let plan = match PagePlan::new(fragment, "id", page, limit) {
        Ok(plan) => plan,
        Err(e) => return (Err(e), queries),
    };
    let _count = plan.count_query();
    queries += 1;
    match plan.on_count::<u32>(Ok(rows.len() as i64)) {
        CountStep::Done(r) => (r, queries),
        CountStep::FetchRows(q) => {
            queries += 1;
            let n = q.params.len();
            let selected: Vec<u32> = if plan.window.limit.is_some() {
                let (l, o) = match (q.params[n - 2], q.params[n - 1]) {
                    (SqlParam::Int64(l), SqlParam::Int64(o)) => (l as usize, o as usize),
                    _ => panic!("window values are not bound last"),
                };
                rows.iter().skip(o).take(l).cloned().collect()
            } else {
                rows.to_vec()
            };
            (plan.on_rows(rows.len() as i64, Ok(selected)), queries)
        }
    }
}

fn rows(n: u32) -> Vec<u32> {
    (0..n).collect()
}

fn success(r: Result<PaginateResult<u32>, PaginationError>) -> (Vec<u32>, i64, Window) {
    match r {
        Ok(PaginateResult::Success { records, total_count, window }) => (records, total_count, window),
        other => panic!("expected a page, got {:?}", other),
    }
}

#[test]
fn offset_is_page_minus_one_times_limit() {
    assert_eq!(compute_offset(1, 10), 0);
    assert_eq!(compute_offset(3, 10), 20);
    assert_eq!(compute_offset(7, 1), 6);
    assert_eq!(
        compute_offset(i64::MAX, i64::MAX),
        (i64::MAX as i128 - 1) * (i64::MAX as i128)
    );
}

#[test]
fn twenty_five_rows_in_pages_of_ten() {
    let all = rows(25);
    let (records, total, window) = success(run_page(&all, textbook_fragment(), Some(1), Some(10)).0);
    assert_eq!(records, (0..10).collect::<Vec<u32>>());
    assert_eq!(content_range(total, &window), "items 0-9/25");

    let (records, total, window) = success(run_page(&all, textbook_fragment(), Some(2), Some(10)).0);
    assert_eq!(records, (10..20).collect::<Vec<u32>>());
    assert_eq!(content_range(total, &window), "items 10-19/25");

    let (records, total, window) = success(run_page(&all, textbook_fragment(), Some(3), Some(10)).0);
    assert_eq!(records, (20..25).collect::<Vec<u32>>());
    assert_eq!(content_range(total, &window), "items 20-24/25");

    let (r, _) = run_page(&all, textbook_fragment(), Some(4), Some(10));
    assert!(matches!(r, Ok(PaginateResult::NotFound)));
}

#[test]
fn empty_set_is_an_empty_page_on_any_page() {
    for page in [1, 2, 5] {
        let (r, queries) = run_page(&[], textbook_fragment(), Some(page), Some(10));
        let (records, total, window) = success(r);
        assert!(records.is_empty());
        assert_eq!(total, 0);
        assert_eq!(content_range(total, &window), "items 0-0/0");
        assert_eq!(queries, 1);
    }
}

#[test]
fn zero_limit_is_refused_before_any_query() {
    let (r, queries) = run_page(&rows(5), textbook_fragment(), Some(1), Some(0));
    assert!(matches!(r, Err(PaginationError::InvalidParameter)));
    assert_eq!(queries, 0);
}

#[test]
fn non_positive_page_or_limit_is_refused_when_windowed() {
    assert_eq!(compute_window(Some(0), Some(10)), Err(PaginationError::InvalidParameter));
    assert_eq!(compute_window(Some(-3), None), Ok(Window { offset: 0, limit: None }));
    assert_eq!(compute_window(Some(0), None), Ok(Window { offset: 0, limit: None }));
    assert_eq!(compute_window(Some(0), Some(-2)), Err(PaginationError::InvalidParameter));
    assert_eq!(compute_window(None, Some(-1)), Err(PaginationError::InvalidParameter));
    assert_eq!(compute_window(None, Some(4)), Ok(Window { offset: 0, limit: Some(4) }));
    assert_eq!(compute_window(Some(2), None), Ok(Window { offset: 0, limit: None }));
}

#[test]
fn pages_concatenate_to_the_whole_set() {
    for (n, limit) in [(23u32, 5i64), (20, 5), (1, 3), (7, 1), (9, 100)] {
        let all = rows(n);
        let pages = (n as i64 + limit - 1) / limit;
        let mut seen: Vec<u32> = Vec::new();
        for page in 1..=pages {
            let (records, _, _) = success(run_page(&all, textbook_fragment(), Some(page), Some(limit)).0);
            seen.extend(records);
        }
        assert_eq!(seen, all);
        let (r, _) = run_page(&all, textbook_fragment(), Some(pages + 1), Some(limit));
        assert!(matches!(r, Ok(PaginateResult::NotFound)));
    }
}

#[test]
fn page_past_the_end_is_not_found() {
    let (r, _) = run_page(&rows(10), textbook_fragment(), Some(2), Some(10));
    assert!(matches!(r, Ok(PaginateResult::NotFound)));
    let (r, _) = run_page(&rows(1), textbook_fragment(), Some(i64::MAX), Some(i64::MAX));
    assert!(matches!(r, Ok(PaginateResult::NotFound)));
}

#[test]
fn first_page_of_nothing_is_success() {
    let (r, _) = run_page(&[], textbook_fragment(), Some(1), Some(3));
    let (records, total, _) = success(r);
    assert!(records.is_empty());
    assert_eq!(total, 0);
}

#[test]
fn missing_page_defaults_to_the_first() {
    let (records, _, window) = success(run_page(&rows(8), textbook_fragment(), None, Some(3)).0);
    assert_eq!(records, vec![0, 1, 2]);
    assert_eq!(window, Window { offset: 0, limit: Some(3) });
}

#[test]
fn missing_limit_returns_every_row() {
    let (records, total, window) = success(run_page(&rows(6), textbook_fragment(), None, None).0);
    assert_eq!(records, rows(6));
    assert_eq!(window, Window { offset: 0, limit: None });
    assert_eq!(content_range(total, &window), "items 0-5/6");
}

#[test]
fn count_and_data_queries_share_the_filter() {
    let params = LessonQuery { page: Some(2), limit: Some(5), textbook_id: Some(7) };
    let plan = PagePlan::new(lesson_fragment(&params), "id", params.page, params.limit).unwrap();
    let count = plan.count_query();
    assert_eq!(
        count.sql,
        "SELECT COUNT(*) FROM (SELECT * FROM lesson WHERE 1=1 AND textbook_id = $1 ORDER BY id) AS subquery"
    );
    assert_eq!(count.params, vec![SqlParam::Int32(7)]);
    match plan.on_count::<u32>(Ok(12)) {
        CountStep::FetchRows(q) => {
            assert_eq!(
                q.sql,
                "SELECT * FROM lesson WHERE 1=1 AND textbook_id = $1 ORDER BY id LIMIT $2 OFFSET $3"
            );
            assert_eq!(
                q.params,
                vec![SqlParam::Int32(7), SqlParam::Int64(5), SqlParam::Int64(5)]
            );
        }
        other => panic!("expected a data query, got {:?}", other),
    }
}

#[test]
fn unwindowed_data_query_has_no_limit() {
    let plan = PagePlan::new(textbook_fragment(), "id", None, None).unwrap();
    match plan.on_count::<u32>(Ok(3)) {
        CountStep::FetchRows(q) => {
            assert_eq!(q.sql, "SELECT * FROM textbook WHERE 1=1 ORDER BY id");
            assert!(q.params.is_empty());
        }
        other => panic!("expected a data query, got {:?}", other),
    }
}

#[test]
fn store_failures_are_propagated() {
    let plan = PagePlan::new(textbook_fragment(), "id", Some(1), Some(2)).unwrap();
    assert!(matches!(
        plan.on_count::<u32>(Err(StoreError::Database)),
        CountStep::Done(Err(PaginationError::DatabaseError))
    ));
    assert!(matches!(
        plan.on_count::<u32>(Err(StoreError::Cancelled)),
        CountStep::Done(Err(PaginationError::Cancelled))
    ));
    assert!(matches!(
        plan.on_rows::<u32>(4, Err(StoreError::Database)),
        Err(PaginationError::DatabaseError)
    ));
    assert!(matches!(
        plan.on_rows::<u32>(4, Err(StoreError::Cancelled)),
        Err(PaginationError::Cancelled)
    ));
}

#[test]
fn headers_describe_the_window() {
    let headers = pagination_headers(25, &Window { offset: 10, limit: Some(10) });
    let expected: Vec<(String, String)> = vec![
        ("content-range".to_string(), "items 10-19/25".to_string()),
        ("access-control-expose-headers".to_string(), "Content-Range".to_string()),
        ("x-total-count".to_string(), "25".to_string()),
        ("x-page".to_string(), "2".to_string()),
        ("x-per-page".to_string(), "10".to_string()),
    ];
    assert_eq!(headers, expected);
    let headers = pagination_headers(0, &Window { offset: 0, limit: None });
    assert_eq!(headers.len(), 3);
    assert_eq!(headers[0].1, "items 0-0/0");
    assert_eq!(headers[2].1, "0");
}

#[test]
fn content_range_past_the_end_ends_before_its_start() {
    assert_eq!(content_range(5, &Window { offset: 10, limit: Some(5) }), "items 10-9/5");
}

#[test]
fn empty_word_listing_is_a_page_of_no_words() {
    let params = WordQuery { page: None, limit: None, lesson_id: Some(4) };
    let (r, queries) = run_page(&[], word_fragment(&params), params.page, params.limit);
    assert_eq!(page_status(&r), ApiStatus::Success);
    let (records, total, window) = success(r);
    assert!(records.is_empty());
    assert_eq!(queries, 1);
    assert_eq!(content_range(total, &window), "items 0-0/0");
}

#[test]
fn page_without_a_limit_is_not_read() {
    let (records, _, window) = success(run_page(&rows(4), textbook_fragment(), Some(0), None).0);
    assert_eq!(records, rows(4));
    assert_eq!(window, Window { offset: 0, limit: None });
}
