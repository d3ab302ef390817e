use lessons_api::{
    lesson_fragment, render_int, textbook_fragment, word_fragment, LessonQuery,
    QueryFragment, Resource, SqlParam, TextbookQuery, WordQuery, HasPagination,
};

#[test]
fn render_int_writes_decimal_text() {
    assert_eq!(render_int(0), "0");
    assert_eq!(render_int(7), "7");
    assert_eq!(render_int(1234567890), "1234567890");
    assert_eq!(render_int(-42), "-42");
    assert_eq!(render_int(i128::MIN), i128::MIN.to_string());
    assert_eq!(render_int(i128::MAX), i128::MAX.to_string());
}

#[test]
fn fragment_builder_numbers_placeholders_in_order() {
    let mut f = QueryFragment::new("SELECT * FROM word WHERE 1=1");
    f.append_predicate("lesson_id = ", SqlParam::Int32(3));
    f.append_predicate("id > ", SqlParam::Int64(10));
    f.append_order("id");
    assert_eq!(f.sql, "SELECT * FROM word WHERE 1=1 AND lesson_id = $1 AND id > $2 ORDER BY id");
    assert_eq!(f.params, vec![SqlParam::Int32(3), SqlParam::Int64(10)]);
    assert!(f.ordered);
    assert!(!f.windowed);
    let w = f.windowed(10, 20);
    assert!(w.ordered && w.windowed);
    assert_eq!(
        w.params,
        vec![SqlParam::Int32(3), SqlParam::Int64(10), SqlParam::Int64(10), SqlParam::Int64(20)]
    );
    let count = f.count_query();
    assert!(!count.ordered && !count.windowed);
    assert_eq!(
        w.sql,
        "SELECT * FROM word WHERE 1=1 AND lesson_id = $1 AND id > $2 ORDER BY id LIMIT $3 OFFSET $4"
    );
    assert_eq!(w.params.len(), 4);
}

#[test]
fn resources_name_their_tables() {
    assert_eq!(Resource::Textbook.table_name(), "textbook");
    assert_eq!(Resource::Lesson.table_name(), "lesson");
    assert_eq!(Resource::Word.table_name(), "word");
    assert_eq!(Resource::Lesson.order_by_column(), "id");
    assert_eq!(Resource::Word.base_fragment().sql, "SELECT * FROM word WHERE 1=1");
}

#[test]
fn adapters_apply_their_filters() {
    assert_eq!(textbook_fragment().sql, "SELECT * FROM textbook WHERE 1=1");
    let all = lesson_fragment(&LessonQuery { page: None, limit: None, textbook_id: None });
    assert_eq!(all.sql, "SELECT * FROM lesson WHERE 1=1");
    assert!(all.params.is_empty());
    let some = word_fragment(&WordQuery { page: None, limit: None, lesson_id: Some(9) });
    assert_eq!(some.sql, "SELECT * FROM word WHERE 1=1 AND lesson_id = $1");
    assert_eq!(some.params, vec![SqlParam::Int32(9)]);
}

#[test]
fn query_parameters_expose_page_and_limit() {
    let t = TextbookQuery { page: Some(2), limit: Some(30) };
    assert_eq!((t.page(), t.limit()), (Some(2), Some(30)));
    let l = LessonQuery { page: None, limit: Some(5), textbook_id: Some(1) };
    assert_eq!((l.page(), l.limit()), (None, Some(5)));
    let w = WordQuery { page: Some(3), limit: None, lesson_id: None };
    assert_eq!((w.page(), w.limit()), (Some(3), None));
}
