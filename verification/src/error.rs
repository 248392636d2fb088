use vstd::prelude::*;

use crate::text::str_eq;

verus! {

/// The body of a standardized API error response.
#[derive(Debug)]
pub struct ErrorDetails {
    pub code: String,
    pub message: String,
    pub details: Option<String>,
}

/// Standardized API error response.
#[derive(Debug)]
pub struct ApiError {
    pub error: ErrorDetails,
}

impl ApiError {
    /// An error with a code and a message.
    pub fn new(code: &str, message: &str) -> (r: Self)
        ensures
            r.error.code@ == code@,
            r.error.message@ == message@,
            r.error.details is None,
    {
        ApiError {
            error: ErrorDetails {
                code: String::from_str(code),
                message: String::from_str(message),
                details: None,
            },
        }
    }

    /// An error with a code, a message and details.
    pub fn with_details(code: &str, message: &str, details: &str) -> (r: Self)
        ensures
            r.error.code@ == code@,
            r.error.message@ == message@,
            r.error.details matches Some(d) && d@ == details@,
    {
        ApiError {
            error: ErrorDetails {
                code: String::from_str(code),
                message: String::from_str(message),
                details: Some(String::from_str(details)),
            },
        }
    }

    /// A missing resource.
    pub fn not_found(resource: &str) -> (r: Self)
        ensures
            r.error.code@ == "NOT_FOUND"@,
            r.error.message@ == resource@ + " not found"@,
            r.error.details is None,
    {
        let mut message = String::from_str(resource);
        message.append(" not found");
        ApiError {
            error: ErrorDetails {
                code: String::from_str("NOT_FOUND"),
                message,
                details: None,
            },
        }
    }

    /// A malformed request.
    pub fn bad_request(message: &str) -> (r: Self)
        ensures
            r.error.code@ == "BAD_REQUEST"@,
            r.error.message@ == message@,
            r.error.details is None,
    {
        Self::new("BAD_REQUEST", message)
    }

    /// An unexpected internal failure.
    pub fn internal_error(message: &str) -> (r: Self)
        ensures
            r.error.code@ == "INTERNAL_ERROR"@,
            r.error.message@ == message@,
            r.error.details is None,
    {
        Self::new("INTERNAL_ERROR", message)
    }

    /// A database failure, with its details kept aside.
    pub fn database_error(details: &str) -> (r: Self)
        ensures
            r.error.code@ == "DATABASE_ERROR"@,
            r.error.message@ == "A database error occurred"@,
            r.error.details matches Some(d) && d@ == details@,
    {
        Self::with_details("DATABASE_ERROR", "A database error occurred", details)
    }

    /// A rejected input.
    pub fn validation_error(message: &str) -> (r: Self)
        ensures
            r.error.code@ == "VALIDATION_ERROR"@,
            r.error.message@ == message@,
            r.error.details is None,
    {
        Self::new("VALIDATION_ERROR", message)
    }

    /// A failure of an outside service.
    pub fn external_api_error(service: &str, details: &str) -> (r: Self)
        ensures
            r.error.code@ == "EXTERNAL_API_ERROR"@,
            r.error.message@ == service@ + " API error"@,
            r.error.details matches Some(d) && d@ == details@,
    {
        let mut message = String::from_str(service);
        message.append(" API error");
        ApiError {
            error: ErrorDetails {
                code: String::from_str("EXTERNAL_API_ERROR"),
                message,
                details: Some(String::from_str(details)),
            },
        }
    }

    /// A conflicting request.
    pub fn conflict(message: &str) -> (r: Self)
        ensures
            r.error.code@ == "CONFLICT"@,
            r.error.message@ == message@,
            r.error.details is None,
    {
        Self::new("CONFLICT", message)
    }

    /// The HTTP status an error code maps to.
    pub fn status_code(&self) -> (r: u16)
        ensures
            self.error.code@ == "NOT_FOUND"@ ==> r == 404,
            self.error.code@ == "BAD_REQUEST"@ ==> r == 400,
            self.error.code@ == "VALIDATION_ERROR"@ ==> r == 400,
            self.error.code@ == "CONFLICT"@ ==> r == 409,
            self.error.code@ == "EXTERNAL_API_ERROR"@ ==> r == 502,
            (self.error.code@ != "NOT_FOUND"@ && self.error.code@ != "BAD_REQUEST"@
                && self.error.code@ != "VALIDATION_ERROR"@ && self.error.code@ != "CONFLICT"@
                && self.error.code@ != "EXTERNAL_API_ERROR"@) ==> r == 500,
    {
        proof {
            reveal_strlit("NOT_FOUND");
            reveal_strlit("BAD_REQUEST");
            reveal_strlit("VALIDATION_ERROR");
            reveal_strlit("CONFLICT");
            reveal_strlit("EXTERNAL_API_ERROR");
            assert(("NOT_FOUND"@).len() == 9);
            assert(("BAD_REQUEST"@).len() == 11);
            assert(("VALIDATION_ERROR"@).len() == 16);
            assert(("CONFLICT"@).len() == 8);
            assert(("EXTERNAL_API_ERROR"@).len() == 18);
        }
        let code = self.error.code.as_str();
        if str_eq(code, "NOT_FOUND") {
            404
        } else if str_eq(code, "BAD_REQUEST") {
            400
        } else if str_eq(code, "VALIDATION_ERROR") {
            400
        } else if str_eq(code, "CONFLICT") {
            409
        } else if str_eq(code, "EXTERNAL_API_ERROR") {
            502
        } else {
            500
        }
    }
}

} // verus!
