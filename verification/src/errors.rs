//! The error taxonomy of the service, each kind mapped to one HTTP status.

use vstd::prelude::*;

verus! {

/// Everything that can go wrong between a request and its response,
/// tagged so that each kind maps to its own HTTP status code.
#[derive(Clone, Copy, PartialEq, Eq, Structural, Debug)]
pub enum AppError {
    /// A required configuration value is missing or malformed.
    Config,
    /// The connection pool could not hand out a connection.
    Connection,
    /// The data layer rejected or failed the operation.
    Query,
    /// The template engine could not render the page.
    Template,
    /// No stored post matches the request.
    NotFound,
}

impl AppError {
    /// The HTTP status code that reports this error.
    pub open spec fn status_spec(self) -> u16 {
        match self {
            AppError::Config => 500,
            AppError::Connection => 503,
            AppError::Query => 500,
            AppError::Template => 500,
            AppError::NotFound => 404,
        }
    }

    pub fn status_code(&self) -> (s: u16)
        ensures
            s == self.status_spec(),
    {
        match self {
            AppError::Config => 500,
            AppError::Connection => 503,
            AppError::Query => 500,
            AppError::Template => 500,
            AppError::NotFound => 404,
        }
    }

    /// The body text that reports this error; a missing post reports
    /// itself through the status alone.
    pub open spec fn message_spec(self) -> Seq<char> {
        match self {
            AppError::Config => "configuration error"@,
            AppError::Connection => "service unavailable"@,
            AppError::Query => "error while receiving data"@,
            AppError::Template => "error while rendering page"@,
            AppError::NotFound => ""@,
        }
    }

    pub fn message(&self) -> (m: String)
        ensures
            m@ == self.message_spec(),
    {
        match self {
            AppError::Config => String::from_str("configuration error"),
            AppError::Connection => String::from_str("service unavailable"),
            AppError::Query => String::from_str("error while receiving data"),
            AppError::Template => String::from_str("error while rendering page"),
            AppError::NotFound => String::from_str(""),
        }
    }
}

} // verus!
