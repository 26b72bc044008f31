//! The library's error union and its single mapping to presentation
//! outcomes: an HTTP status for browser responses and a structured body for
//! the JSON rewrite endpoint.

use vstd::prelude::*;
use vstd::string::*;

verus! {

/// Failure of a storage operation.
#[derive(Debug)]
pub enum DbError {
    /// The requested row does not exist.
    NotFound,
    /// An insert collided with a uniqueness constraint.
    UniqueViolation,
    /// Any other storage failure, described in text.
    Other(String),
}

/// A structured error as remote instances report it: the transport status
/// plus the machine-readable code and human-readable description from the
/// response body.
#[derive(Debug)]
pub struct ErrorResponse {
    pub status: u16,
    pub error: String,
    pub error_description: String,
}

/// Everything that can go wrong in the core flows.
#[derive(Debug)]
pub enum FediurlError {
    /// A storage operation failed.
    Database(DbError),
    /// An outbound call failed at the transport level.
    Http(String),
    /// A URL could not be built or understood.
    Url(String),
    /// Required input was missing or the path does not exist.
    InvalidPath,
    /// A remote instance's app registration omitted the credentials.
    Registration,
    /// A remote instance returned a structured error body.
    ErrorResponse(ErrorResponse),
}

/// The description a storage failure carries.
pub open spec fn db_message_spec(e: DbError) -> Seq<char> {
    match e {
        DbError::NotFound => "not found"@,
        DbError::UniqueViolation => "unique constraint violated"@,
        DbError::Other(s) => s@,
    }
}

/// The description an error carries.
pub open spec fn message_spec(e: FediurlError) -> Seq<char> {
    match e {
        FediurlError::Database(d) => db_message_spec(d),
        FediurlError::Http(s) => s@,
        FediurlError::Url(s) => s@,
        FediurlError::InvalidPath => "invalid path"@,
        FediurlError::Registration => "registration response was missing credentials"@,
        FediurlError::ErrorResponse(e) => e.error_description@,
    }
}

/// The JSON body the rewrite endpoint reports this error with.
pub open spec fn is_error_response_for(r: ErrorResponse, e: FediurlError) -> bool {
    match e {
        FediurlError::Database(d) => r.status == 500 && r.error@ == "database"@
            && r.error_description@ == db_message_spec(d),
        FediurlError::Http(s) => r.status == 500 && r.error@ == "http_client"@
            && r.error_description@ == s@,
        FediurlError::Url(s) => r.status == 400 && r.error@ == "invalid_url"@
            && r.error_description@ == s@,
        FediurlError::InvalidPath => r.status == 404 && r.error@ == "invalid_path"@
            && r.error_description@ == "path or URL was invalid or not found"@,
        FediurlError::Registration => r.status == 500 && r.error@ == "registration"@
            && r.error_description@ == "registration response was missing credentials"@,
        FediurlError::ErrorResponse(er) => r == er,
    }
}

impl Clone for DbError {
    fn clone(&self) -> (r: Self)
        ensures
            r == *self,
    {
        match self {
            DbError::NotFound => DbError::NotFound,
            DbError::UniqueViolation => DbError::UniqueViolation,
            DbError::Other(s) => DbError::Other(s.clone()),
        }
    }
}

impl Clone for ErrorResponse {
    fn clone(&self) -> (r: Self)
        ensures
            r == *self,
    {
        ErrorResponse {
            status: self.status,
            error: self.error.clone(),
            error_description: self.error_description.clone(),
        }
    }
}

impl Clone for FediurlError {
    fn clone(&self) -> (r: Self)
        ensures
            r == *self,
    {
        match self {
            FediurlError::Database(e) => FediurlError::Database(e.clone()),
            FediurlError::Http(s) => FediurlError::Http(s.clone()),
            FediurlError::Url(s) => FediurlError::Url(s.clone()),
            FediurlError::InvalidPath => FediurlError::InvalidPath,
            FediurlError::Registration => FediurlError::Registration,
            FediurlError::ErrorResponse(e) => FediurlError::ErrorResponse(e.clone()),
        }
    }
}

impl DbError {
    /// A short description of the failure.
    pub fn message(&self) -> (r: String)
        ensures
            r@ == db_message_spec(*self),
    {
        match self {
            DbError::NotFound => "not found".to_owned(),
            DbError::UniqueViolation => "unique constraint violated".to_owned(),
            DbError::Other(s) => s.clone(),
        }
    }
}

impl FediurlError {
    /// The HTTP status a browser-facing response carries for this error:
    /// a missing row or path is "not found", everything else is an internal
    /// error.
    pub fn http_status(&self) -> (r: u16)
        ensures
            (self matches FediurlError::Database(DbError::NotFound) || self is InvalidPath) ==> r
                == 404,
            !(self matches FediurlError::Database(DbError::NotFound) || self is InvalidPath) ==> r
                == 500,
    {
        match self {
            FediurlError::Database(DbError::NotFound) => 404,
            FediurlError::InvalidPath => 404,
            _ => 500,
        }
    }

    /// A short description of the failure.
    pub fn message(&self) -> (r: String)
        ensures
            r@ == message_spec(*self),
    {
        match self {
            FediurlError::Database(e) => e.message(),
            FediurlError::Http(s) => s.clone(),
            FediurlError::Url(s) => s.clone(),
            FediurlError::InvalidPath => "invalid path".to_owned(),
            FediurlError::Registration => "registration response was missing credentials".to_owned(
            ),
            FediurlError::ErrorResponse(e) => e.error_description.clone(),
        }
    }

    /// The body of the JSON rewrite endpoint for this error: one exhaustive
    /// mapping rather than per-call-site conversions.
    pub fn to_error_response(&self) -> (r: ErrorResponse)
        ensures
            is_error_response_for(r, *self),
    {
        match self {
            FediurlError::Database(e) => ErrorResponse {
                status: 500,
                error: "database".to_owned(),
                error_description: e.message(),
            },
            FediurlError::Http(s) => ErrorResponse {
                status: 500,
                error: "http_client".to_owned(),
                error_description: s.clone(),
            },
            FediurlError::Url(s) => ErrorResponse {
                status: 400,
                error: "invalid_url".to_owned(),
                error_description: s.clone(),
            },
            FediurlError::InvalidPath => ErrorResponse {
                status: 404,
                error: "invalid_path".to_owned(),
                error_description: "path or URL was invalid or not found".to_owned(),
            },
            FediurlError::Registration => ErrorResponse {
                status: 500,
                error: "registration".to_owned(),
                error_description: "registration response was missing credentials".to_owned(),
            },
            FediurlError::ErrorResponse(e) => e.clone(),
        }
    }
}

} // verus!
