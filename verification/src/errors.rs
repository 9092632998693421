//! The error type shared by all services, its message and the HTTP answer it gives.

use vstd::prelude::*;

use crate::text::{concat2, owned};

verus! {

/// Failures of a request or of a background step.
#[derive(Debug, Clone, PartialEq, Eq)]
pub enum AppError {
    Unauthorized,
    BadRequest(String),
    NotFound(String),
    Database(String),
    Broker(String),
    Internal(String),
}

/// The text that clients receive in place of an internal error's details.
pub open spec fn internal_client_message() -> Seq<char> {
    "An internal server error occurred. Please try again later."@
}

impl AppError {
    /// The error's message, as its `Display` writes it.
    pub open spec fn message_spec(&self) -> Seq<char> {
        match self {
            AppError::Unauthorized => "Unauthorized"@,
            AppError::BadRequest(m) => "Bad request: "@ + m@,
            AppError::NotFound(m) => "Not found: "@ + m@,
            AppError::Database(m) => "Database error: "@ + m@,
            AppError::Broker(m) => "Broker error: "@ + m@,
            AppError::Internal(m) => "Internal server error: "@ + m@,
        }
    }

    /// Errors of the system itself, whose details stay in the logs.
    pub open spec fn is_internal_spec(&self) -> bool {
        match self {
            AppError::Database(_) | AppError::Broker(_) | AppError::Internal(_) => true,
            _ => false,
        }
    }

    /// The HTTP status code that answers the error.
    pub open spec fn status_spec(&self) -> u16 {
        match self {
            AppError::Unauthorized => 401,
            AppError::BadRequest(_) => 400,
            AppError::NotFound(_) => 404,
            _ => 500,
        }
    }

    /// The error's message (its `Display` text).
    pub fn message(&self) -> (res: String)
        ensures
            res@ == self.message_spec(),
    {
        match self {
            AppError::Unauthorized => owned("Unauthorized"),
            AppError::BadRequest(m) => concat2("Bad request: ", m.as_str()),
            AppError::NotFound(m) => concat2("Not found: ", m.as_str()),
            AppError::Database(m) => concat2("Database error: ", m.as_str()),
            AppError::Broker(m) => concat2("Broker error: ", m.as_str()),
            AppError::Internal(m) => concat2("Internal server error: ", m.as_str()),
        }
    }

    /// Whether the error is one of the system's own (database, broker, internal).
    pub fn is_internal(&self) -> (res: bool)
        ensures
            res == self.is_internal_spec(),
    {
        match self {
            AppError::Database(_) | AppError::Broker(_) | AppError::Internal(_) => true,
            _ => false,
        }
    }

    /// The status code and the client message of the HTTP answer to the error: the
    /// error's own message, except for internal errors, which get a generic text.
    pub fn response_parts(&self) -> (res: (u16, String))
        ensures
            res.0 == self.status_spec(),
            res.1@ == if self.is_internal_spec() {
                internal_client_message()
            } else {
                self.message_spec()
            },
    {
        let status: u16 = match self {
            AppError::Unauthorized => 401,
            AppError::BadRequest(_) => 400,
            AppError::NotFound(_) => 404,
            _ => 500,
        };
        if self.is_internal() {
            (status, owned("An internal server error occurred. Please try again later."))
        } else {
            (status, self.message())
        }
    }
}

} // verus!
