use vstd::prelude::*;

use crate::auth::UserValidationResult;
use crate::decimal::{append_int, dec_int};
use crate::engine::{PaginateResult, StoreError};
use crate::resources::PatchLesson;
use crate::window::PaginationError;

verus! {

/// The HTTP status that answers a request.
#[derive(Clone, Copy, Debug, PartialEq, Eq, Structural)]
pub enum ApiStatus {
    Success,
    Created,
    NoContent,
    BadRequest,
    Unauthorized,
    NotFound,
    InternalServerError,
}

impl ApiStatus {
    pub open spec fn code_spec(self) -> u16 {
        match self {
            ApiStatus::Success => 200,
            ApiStatus::Created => 201,
            ApiStatus::NoContent => 204,
            ApiStatus::BadRequest => 400,
            ApiStatus::Unauthorized => 401,
            ApiStatus::NotFound => 404,
            ApiStatus::InternalServerError => 500,
        }
    }

    /// The numeric status code.
    pub fn code(&self) -> (r: u16)
        ensures
            r == self.code_spec(),
    {
        match self {
            ApiStatus::Success => 200,
            ApiStatus::Created => 201,
            ApiStatus::NoContent => 204,
            ApiStatus::BadRequest => 400,
            ApiStatus::Unauthorized => 401,
            ApiStatus::NotFound => 404,
            ApiStatus::InternalServerError => 500,
        }
    }
}

/// A page, empty or not, is `200`; a page past the end is `404`; a refused
/// page or limit is `400`; a failed round trip is `500`.
pub fn page_status<T>(r: &Result<PaginateResult<T>, PaginationError>) -> (s: ApiStatus)
    ensures
        s == match r {
            Ok(PaginateResult::Success { .. }) => ApiStatus::Success,
            Ok(PaginateResult::NotFound) => ApiStatus::NotFound,
            Err(PaginationError::InvalidParameter) => ApiStatus::BadRequest,
            Err(_) => ApiStatus::InternalServerError,
        },
{
    match r {
        Ok(PaginateResult::Success { .. }) => ApiStatus::Success,
        Ok(PaginateResult::NotFound) => ApiStatus::NotFound,
        Err(PaginationError::InvalidParameter) => ApiStatus::BadRequest,
        Err(_) => ApiStatus::InternalServerError,
    }
}

/// The row found is `200`; no such row is `404`; a failed query is `500`.
pub fn lookup_status<T>(r: &Result<Option<T>, StoreError>) -> (s: ApiStatus)
    ensures
        s == match r {
            Ok(Some(_)) => ApiStatus::Success,
            Ok(None) => ApiStatus::NotFound,
            Err(_) => ApiStatus::InternalServerError,
        },
{
    match r {
        Ok(Some(_)) => ApiStatus::Success,
        Ok(None) => ApiStatus::NotFound,
        Err(_) => ApiStatus::InternalServerError,
    }
}

/// A deleted row is answered with `done`; no such row is `404`; a failed
/// query is `500`.
pub fn removal_status<T>(r: &Result<Option<T>, StoreError>, done: ApiStatus) -> (s: ApiStatus)
    ensures
        s == match r {
            Ok(Some(_)) => done,
            Ok(None) => ApiStatus::NotFound,
            Err(_) => ApiStatus::InternalServerError,
        },
{
    match r {
        Ok(Some(_)) => done,
        Ok(None) => ApiStatus::NotFound,
        Err(_) => ApiStatus::InternalServerError,
    }
}

/// A stored row is `201`; a failed insert is `500`.
pub fn creation_status<T>(r: &Result<T, StoreError>) -> (s: ApiStatus)
    ensures
        s == match r {
            Ok(_) => ApiStatus::Created,
            Err(_) => ApiStatus::InternalServerError,
        },
{
    match r {
        Ok(_) => ApiStatus::Created,
        Err(_) => ApiStatus::InternalServerError,
    }
}

/// A listing that must find something: rows are `200`, none is `404`, a
/// failed query is `500`.
pub fn nonempty_list_status<T>(r: &Result<Vec<T>, StoreError>) -> (s: ApiStatus)
    ensures
        s == match r {
            Ok(v) => if v@.len() > 0 {
                ApiStatus::Success
            } else {
                ApiStatus::NotFound
            },
            Err(_) => ApiStatus::InternalServerError,
        },
{
    match r {
        Ok(v) => if v.len() > 0 {
            ApiStatus::Success
        } else {
            ApiStatus::NotFound
        },
        Err(_) => ApiStatus::InternalServerError,
    }
}

/// A deletion by id that reports whether a row went: `204`, else `404`; a
/// failed query is `500`.
pub fn deletion_status(r: &Result<bool, StoreError>) -> (s: ApiStatus)
    ensures
        s == match r {
            Ok(true) => ApiStatus::NoContent,
            Ok(false) => ApiStatus::NotFound,
            Err(_) => ApiStatus::InternalServerError,
        },
{
    match r {
        Ok(true) => ApiStatus::NoContent,
        Ok(false) => ApiStatus::NotFound,
        Err(_) => ApiStatus::InternalServerError,
    }
}

/// A login with valid credentials is `200`, with invalid ones `401`; a
/// failed lookup is `500`.
pub fn login_status(v: UserValidationResult) -> (s: ApiStatus)
    ensures
        s == match v {
            UserValidationResult::Valid => ApiStatus::Success,
            UserValidationResult::InvalidCredentials => ApiStatus::Unauthorized,
            UserValidationResult::DatabaseError => ApiStatus::InternalServerError,
        },
{
    match v {
        UserValidationResult::Valid => ApiStatus::Success,
        UserValidationResult::InvalidCredentials => ApiStatus::Unauthorized,
        UserValidationResult::DatabaseError => ApiStatus::InternalServerError,
    }
}

/// Whether a partial update of a lesson changes any field.
pub fn patch_has_fields(p: &PatchLesson) -> (r: bool)
    ensures
        r == (p.title is Some || p.text is Some || p.video_url is Some || p.textbook_id is Some),
{
    p.title.is_some() || p.text.is_some() || p.video_url.is_some() || p.textbook_id.is_some()
}

/// The message for a lesson that no row holds.
pub fn lesson_not_found_message(id: i32) -> (r: String)
    ensures
        r@ == "Lesson with id "@ + dec_int(id as int) + " not found"@,
{
    let mut out = String::from_str("Lesson with id ");
    append_int(&mut out, id as i128);
    out.append(" not found");
    out
}

} // verus!
