//! A paginated query engine over a relational store, with the request
//! validation and response decisions of a small lessons API built around it.

pub mod decimal;
pub mod fragment;
pub mod window;
pub mod engine;
pub mod laws;
pub mod headers;
pub mod resources;
pub mod auth;
pub mod status;

pub use decimal::{dec_int, dec_nat, render_int};
pub use fragment::{QueryFragment, SqlParam};
pub use window::{compute_offset, compute_window, PaginationError, Window};
pub use engine::{store_failure, CountStep, PagePlan, PaginateResult, StoreError};
pub use laws::{
    last_page, lemma_count_and_data_share_filter, lemma_data_query_binds_page_offset,
    lemma_pages_cover_rows, pages_concat, window_rows,
};
pub use headers::{content_range, pagination_headers};
pub use resources::{
    lesson_fragment, textbook_fragment, word_fragment, HasPagination, Item, Lesson, LessonQuery,
    NewWord, PatchLesson, RequestItem, RequestLesson, RequestTextbook, RequestWord, Resource,
    Textbook, TextbookQuery, Timestamp, Word, WordQuery,
};
pub use auth::{
    bearer_token, check_credentials, prepare_registration, registration_from_hash, token_expiry,
    validate_password, validate_username, LoginInfo, LoginReponse, NewUser, RegistrationError, RequestUsers,
    UserValidationResult, Users, HASH_COST, TOKEN_LIFETIME_SECONDS,
};
pub use status::{
    creation_status, deletion_status, lesson_not_found_message, login_status, lookup_status,
    nonempty_list_status, page_status, patch_has_fields, removal_status, ApiStatus,
};
