use vstd::prelude::*;

use crate::fragment::{marker_free, predicate_text, QueryFragment, SqlParam};

verus! {

/// A point in time as seconds and nanoseconds since 1970-01-01 00:00:00, with
/// no time zone.
#[derive(Clone, Copy, Debug, PartialEq, Eq, Structural)]
pub struct Timestamp {
    pub seconds: i64,
    pub nanos: u32,
}

impl Timestamp {
    pub open spec fn wf(&self) -> bool {
        self.nanos < 1_000_000_000
    }
}

#[derive(Clone, Debug)]
pub struct Textbook {
    pub id: i32,
    pub title: String,
    pub description: String,
}

#[derive(Clone, Debug)]
pub struct Lesson {
    pub id: i32,
    pub title: String,
    pub text: String,
    pub video_url: Option<String>,
    pub created_at: Timestamp,
    pub textbook_id: i32,
}

#[derive(Clone, Debug)]
pub struct Word {
    pub id: i32,
    pub term: String,
    pub definition: String,
    pub lesson_id: i32,
}

#[derive(Clone, Debug)]
pub struct RequestTextbook {
    pub title: String,
    pub description: Option<String>,
}

#[derive(Clone, Debug)]
pub struct RequestLesson {
    pub title: String,
    pub text: String,
    pub video_url: Option<String>,
    pub textbook_id: i32,
}

#[derive(Clone, Debug)]
pub struct RequestWord {
    pub term: String,
    pub definition: String,
    pub lesson_id: i32,
}

/// A word added to a lesson named by the request's path.
#[derive(Clone, Debug)]
pub struct NewWord {
    pub term: String,
    pub definition: String,
}

/// A partial update of a lesson: each field that is present replaces the stored one.
#[derive(Clone, Debug)]
pub struct PatchLesson {
    pub title: Option<String>,
    pub text: Option<String>,
    pub video_url: Option<String>,
    pub textbook_id: Option<i32>,
}

#[derive(Clone, Debug)]
pub struct Item {
    pub id: i32,
    pub name: String,
    pub description: String,
}

#[derive(Clone, Debug)]
pub struct RequestItem {
    pub name: String,
    pub description: String,
}

/// The query parameters of the textbook listing.
#[derive(Clone, Copy, Debug, PartialEq, Eq, Structural)]
pub struct TextbookQuery {
    pub page: Option<i64>,
    pub limit: Option<i64>,
}

/// The query parameters of the lesson listing; `textbook_id` keeps the
/// lessons of one textbook.
#[derive(Clone, Copy, Debug, PartialEq, Eq, Structural)]
pub struct LessonQuery {
    pub page: Option<i64>,
    pub limit: Option<i64>,
    pub textbook_id: Option<i32>,
}

/// The query parameters of the word listing; `lesson_id` keeps the words of
/// one lesson.
#[derive(Clone, Copy, Debug, PartialEq, Eq, Structural)]
pub struct WordQuery {
    pub page: Option<i64>,
    pub limit: Option<i64>,
    pub lesson_id: Option<i32>,
}

/// Request parameters that carry a page and a page size.
pub trait HasPagination {
    spec fn page_spec(&self) -> Option<i64>;

    spec fn limit_spec(&self) -> Option<i64>;

    fn page(&self) -> (r: Option<i64>)
        ensures
            r == self.page_spec(),
    ;

    fn limit(&self) -> (r: Option<i64>)
        ensures
            r == self.limit_spec(),
    ;
}

impl HasPagination for TextbookQuery {
    open spec fn page_spec(&self) -> Option<i64> {
        self.page
    }

    open spec fn limit_spec(&self) -> Option<i64> {
        self.limit
    }

    fn page(&self) -> (r: Option<i64>) {
        self.page
    }

    fn limit(&self) -> (r: Option<i64>) {
        self.limit
    }
}

impl HasPagination for LessonQuery {
    open spec fn page_spec(&self) -> Option<i64> {
        self.page
    }

    open spec fn limit_spec(&self) -> Option<i64> {
        self.limit
    }

    fn page(&self) -> (r: Option<i64>) {
        self.page
    }

    fn limit(&self) -> (r: Option<i64>) {
        self.limit
    }
}

impl HasPagination for WordQuery {
    open spec fn page_spec(&self) -> Option<i64> {
        self.page
    }

    open spec fn limit_spec(&self) -> Option<i64> {
        self.limit
    }

    fn page(&self) -> (r: Option<i64>) {
        self.page
    }

    fn limit(&self) -> (r: Option<i64>) {
        self.limit
    }
}

/// The entities that the listing engine serves.
#[derive(Clone, Copy, Debug, PartialEq, Eq, Structural)]
pub enum Resource {
    Textbook,
    Lesson,
    Word,
}

/// The text of a scan of every row of `table`.
pub open spec fn scan_text(table: Seq<char>) -> Seq<char> {
    "SELECT * FROM "@ + table + " WHERE 1=1"@
}

impl Resource {
    pub open spec fn table_spec(self) -> Seq<char> {
        match self {
            Resource::Textbook => "textbook"@,
            Resource::Lesson => "lesson"@,
            Resource::Word => "word"@,
        }
    }

    /// The table that holds the rows of this entity.
    pub fn table_name(&self) -> (r: &'static str)
        ensures
            r@ == self.table_spec(),
            marker_free(r@),
    {
        proof {
            reveal_strlit("textbook");
            reveal_strlit("lesson");
            reveal_strlit("word");
        }
        match self {
            Resource::Textbook => "textbook",
            Resource::Lesson => "lesson",
            Resource::Word => "word",
        }
    }

    /// The column that orders the rows of this entity: its primary key.
    pub fn order_by_column(&self) -> (r: &'static str)
        ensures
            r@ == "id"@,
            marker_free(r@),
    {
        proof {
            reveal_strlit("id");
        }
        "id"
    }

    /// A scan of every row of this entity, before any filter.
    pub fn base_fragment(&self) -> (r: QueryFragment)
        ensures
            r.wf(),
            r.sql@ == scan_text(self.table_spec()),
            r.params@.len() == 0,
            !r.ordered,
            !r.windowed,
    {
        QueryFragment::scan(self.table_name())
    }
}

/// The text of the filter on one column, compared with the next bound value.
pub open spec fn equals_clause(column: Seq<char>) -> Seq<char> {
    column + " = "@
}

/// The scan of `r`, narrowed to the rows whose `column` equals `value` when one is given.
pub open spec fn filtered_sql(r: Resource, column: Seq<char>, value: Option<i32>) -> Seq<char> {
    match value {
        Some(_) => scan_text(r.table_spec()) + predicate_text(equals_clause(column), 0),
        None => scan_text(r.table_spec()),
    }
}

pub open spec fn filtered_params(value: Option<i32>) -> Seq<SqlParam> {
    match value {
        Some(v) => seq![SqlParam::Int32(v)],
        None => Seq::empty(),
    }
}

fn filtered(r: Resource, clause: &str, value: Option<i32>) -> (f: QueryFragment)
    requires
        marker_free(clause@),
    ensures
        f.wf(),
        !f.ordered,
        !f.windowed,
        f.sql@ == match value {
            Some(_) => scan_text(r.table_spec()) + predicate_text(clause@, 0),
            None => scan_text(r.table_spec()),
        },
        f.params@ == filtered_params(value),
{
    let mut f = r.base_fragment();
    match value {
        Some(v) => {
            f.append_predicate(clause, SqlParam::Int32(v));
            assert(f.params@ =~= filtered_params(value));
        },
        None => {
            assert(f.params@ =~= filtered_params(value));
        },
    }
    f
}

/// The textbooks to list: every one.
pub fn textbook_fragment() -> (f: QueryFragment)
    ensures
        f.wf(),
        !f.ordered,
        !f.windowed,
        f.sql@ == scan_text(Resource::Textbook.table_spec()),
        f.params@.len() == 0,
{
    Resource::Textbook.base_fragment()
}

/// The lessons to list: those of the textbook named by `textbook_id`, or all.
pub fn lesson_fragment(params: &LessonQuery) -> (f: QueryFragment)
    ensures
        f.wf(),
        !f.ordered,
        !f.windowed,
        f.sql@ == filtered_sql(Resource::Lesson, "textbook_id"@, params.textbook_id),
        f.params@ == filtered_params(params.textbook_id),
{
    proof {
        reveal_strlit("textbook_id = ");
        reveal_strlit("textbook_id");
        reveal_strlit(" = ");
    }
    assert("textbook_id = "@ =~= equals_clause("textbook_id"@));
    filtered(Resource::Lesson, "textbook_id = ", params.textbook_id)
}

/// The words to list: those of the lesson named by `lesson_id`, or all.
pub fn word_fragment(params: &WordQuery) -> (f: QueryFragment)
    ensures
        f.wf(),
        !f.ordered,
        !f.windowed,
        f.sql@ == filtered_sql(Resource::Word, "lesson_id"@, params.lesson_id),
        f.params@ == filtered_params(params.lesson_id),
{
    proof {
        reveal_strlit("lesson_id = ");
        reveal_strlit("lesson_id");
        reveal_strlit(" = ");
    }
    assert("lesson_id = "@ =~= equals_clause("lesson_id"@));
    filtered(Resource::Word, "lesson_id = ", params.lesson_id)
}

} // verus!
