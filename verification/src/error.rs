//! The application's error type: what each error shows to a visitor and with
//! which HTTP status it is answered.
use vstd::prelude::*;

use crate::text::owned;

verus! {

/// An error of a request. The errors of the database, the cache store and the
/// template engine are carried as their message text.
#[derive(Debug)]
pub enum AppError {
    NotFound(String),
    Database(String),
    Redis(String),
    Template(String),
    Internal(String),
    Unauthorized,
    BadRequest(String),
    RateLimited,
}

/// The HTTP status of each error.
pub open spec fn status_of(e: AppError) -> u16 {
    match e {
        AppError::NotFound(_) => 404,
        AppError::Unauthorized => 401,
        AppError::BadRequest(_) => 400,
        AppError::RateLimited => 429,
        _ => 500,
    }
}

/// The error's text as the logs show it (its `Display`).
pub open spec fn display_of(e: AppError) -> Seq<char> {
    match e {
        AppError::NotFound(m) => "Not Found: "@ + m@,
        AppError::Database(m) => "Database error: "@ + m@,
        AppError::Redis(m) => "Redis error: "@ + m@,
        AppError::Template(m) => "Template error: "@ + m@,
        AppError::Internal(m) => "Internal error: "@ + m@,
        AppError::Unauthorized => "Unauthorized access"@,
        AppError::BadRequest(m) => "Bad Request: "@ + m@,
        AppError::RateLimited => "Too Many Requests"@,
    }
}

/// The `error` field of the JSON body sent to the client: internal failures
/// are never described to the client.
pub open spec fn public_message_of(e: AppError) -> Seq<char> {
    match e {
        AppError::NotFound(m) => m@,
        AppError::Unauthorized => "Unauthorized"@,
        AppError::BadRequest(m) => m@,
        AppError::RateLimited => "Too Many Requests"@,
        _ => "Internal Server Error"@,
    }
}

/// The error is one the server hides behind a generic 500 answer.
pub open spec fn is_internal(e: AppError) -> bool {
    match e {
        AppError::Database(_) | AppError::Redis(_) | AppError::Template(_) | AppError::Internal(_) => true,
        _ => false,
    }
}

impl AppError {
    /// The HTTP status code of the response for this error.
    pub fn status_code(&self) -> (r: u16)
        ensures
            r == status_of(*self),
    {
        match self {
            AppError::NotFound(_) => 404,
            AppError::Unauthorized => 401,
            AppError::BadRequest(_) => 400,
            AppError::RateLimited => 429,
            _ => 500,
        }
    }

    /// The error's text (its `Display`).
    pub fn display_text(&self) -> (r: String)
        ensures
            r@ == display_of(*self),
    {
        let (prefix, msg): (&str, Option<&String>) = match self {
            AppError::NotFound(m) => ("Not Found: ", Some(m)),
            AppError::Database(m) => ("Database error: ", Some(m)),
            AppError::Redis(m) => ("Redis error: ", Some(m)),
            AppError::Template(m) => ("Template error: ", Some(m)),
            AppError::Internal(m) => ("Internal error: ", Some(m)),
            AppError::Unauthorized => ("Unauthorized access", None),
            AppError::BadRequest(m) => ("Bad Request: ", Some(m)),
            AppError::RateLimited => ("Too Many Requests", None),
        };
        let mut r = owned(prefix);
        if let Some(m) = msg {
            r.append(m.as_str());
        }
        r
    }

    /// The message placed in the `error` field of the JSON response.
    pub fn public_message(&self) -> (r: String)
        ensures
            r@ == public_message_of(*self),
    {
        match self {
            AppError::NotFound(m) => m.clone(),
            AppError::Unauthorized => owned("Unauthorized"),
            AppError::BadRequest(m) => m.clone(),
            AppError::RateLimited => owned("Too Many Requests"),
            _ => owned("Internal Server Error"),
        }
    }

    /// The error for a failed database operation: a missing row is a 404
    /// ("Record not found"), any other failure a database error.
    pub fn from_database(row_not_found: bool, detail: String) -> (r: AppError)
        ensures
            row_not_found ==> (r matches AppError::NotFound(m) && m@ == "Record not found"@),
            !row_not_found ==> (r matches AppError::Database(m) && m@ == detail@),
    {
        if row_not_found {
            AppError::NotFound(owned("Record not found"))
        } else {
            AppError::Database(detail)
        }
    }
}

/// Law: an error is answered with status 500 exactly when it is internal, and
/// then the client is told nothing but "Internal Server Error".
pub proof fn law_internal_errors_are_hidden(e: AppError)
    ensures
        (status_of(e) == 500) == is_internal(e),
        is_internal(e) ==> public_message_of(e) == "Internal Server Error"@,
{
}

} // verus!
